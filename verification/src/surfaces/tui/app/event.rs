//! Completed outside work, as it comes back to the browser, and how it is reported.
use vstd::prelude::*;
use crate::domain::bookmarks::BookmarkRecord;
use crate::domain::entry::EntryItem;
use crate::domain::preview::PreviewModel;
use crate::surfaces::tui::app::action::Action;
use crate::text::{append_str, str_eq};

verus! {

/// The outcome of outside work.
#[derive(Debug)]
pub enum AppEvent {
    DirLoaded { cwd: String, entries: Vec<EntryItem> },
    DirFailed(String),
    PreviewLoaded { path: String, preview: PreviewModel },
    BookmarksLoaded(Vec<BookmarkRecord>),
    Status(String),
}

/// Each outcome is reduced as the action of the same name.
pub open spec fn action_for_event_spec(e: AppEvent) -> Action {
    match e {
        AppEvent::DirLoaded { cwd, entries } => Action::DirLoaded { cwd, entries },
        AppEvent::DirFailed(m) => Action::DirFailed(m),
        AppEvent::PreviewLoaded { path, preview } => Action::PreviewLoaded { path, preview },
        AppEvent::BookmarksLoaded(b) => Action::BookmarksLoaded(b),
        AppEvent::Status(m) => Action::Status(m),
    }
}

pub fn action_for_event(e: AppEvent) -> (r: Action)
    ensures
        r == action_for_event_spec(e),
{
    match e {
        AppEvent::DirLoaded { cwd, entries } => Action::DirLoaded { cwd, entries },
        AppEvent::DirFailed(m) => Action::DirFailed(m),
        AppEvent::PreviewLoaded { path, preview } => Action::PreviewLoaded { path, preview },
        AppEvent::BookmarksLoaded(b) => Action::BookmarksLoaded(b),
        AppEvent::Status(m) => Action::Status(m),
    }
}

/// Note and bookmark changes whose outcome is reported.
#[derive(Debug, Clone, Copy, PartialEq, Eq, Structural)]
pub enum ChangeKind {
    NoteSaved,
    NoteDeleted,
    BookmarkSaved,
    BookmarkDeleted,
    BookmarkRemoved,
}

pub open spec fn success_prefix(k: ChangeKind) -> Seq<char> {
    match k {
        ChangeKind::NoteSaved => "已保存备注: "@,
        ChangeKind::NoteDeleted => "已删除备注: "@,
        ChangeKind::BookmarkSaved => "已保存书签 "@,
        ChangeKind::BookmarkDeleted => "已删除书签 "@,
        ChangeKind::BookmarkRemoved => "已移除书签 "@,
    }
}

pub open spec fn failure_prefix(k: ChangeKind) -> Seq<char> {
    match k {
        ChangeKind::NoteSaved => "保存备注失败: "@,
        ChangeKind::NoteDeleted => "删除备注失败: "@,
        ChangeKind::BookmarkSaved => "保存书签失败: "@,
        ChangeKind::BookmarkDeleted => "删除书签失败: "@,
        ChangeKind::BookmarkRemoved => "移除书签失败: "@,
    }
}

/// The status after a change of `subject`: its success message, or the failure with the
/// error's text.
pub open spec fn change_status_spec(k: ChangeKind, subject: Seq<char>, error: Option<Seq<char>>) -> Seq<char> {
    match error {
        None => success_prefix(k) + subject,
        Some(e) => failure_prefix(k) + e,
    }
}

pub fn change_status(k: ChangeKind, subject: &str, error: Option<&str>) -> (r: String)
    ensures
        r@ == change_status_spec(k, subject@, match error { Some(e) => Some(e@), None => None }),
{
    let mut s = match error {
        None => String::from_str(match k {
            ChangeKind::NoteSaved => "已保存备注: ",
            ChangeKind::NoteDeleted => "已删除备注: ",
            ChangeKind::BookmarkSaved => "已保存书签 ",
            ChangeKind::BookmarkDeleted => "已删除书签 ",
            ChangeKind::BookmarkRemoved => "已移除书签 ",
        }),
        Some(_) => String::from_str(match k {
            ChangeKind::NoteSaved => "保存备注失败: ",
            ChangeKind::NoteDeleted => "删除备注失败: ",
            ChangeKind::BookmarkSaved => "保存书签失败: ",
            ChangeKind::BookmarkDeleted => "删除书签失败: ",
            ChangeKind::BookmarkRemoved => "移除书签失败: ",
        }),
    };
    match error {
        None => append_str(&mut s, subject),
        Some(e) => append_str(&mut s, e),
    }
    s
}

/// Outside work that is only reported when it fails.
#[derive(Debug, Clone, Copy, PartialEq, Eq, Structural)]
pub enum FailureKind {
    LoadBookmarks,
    JumpBookmark,
    LoadBookmarkDir,
    OpenDatabase,
    OpenExternal,
}

pub open spec fn failure_kind_prefix(k: FailureKind) -> Seq<char> {
    match k {
        FailureKind::LoadBookmarks => "加载书签失败: "@,
        FailureKind::JumpBookmark => "跳转书签失败: "@,
        FailureKind::LoadBookmarkDir => "加载书签目录失败: "@,
        FailureKind::OpenDatabase => "打开书签数据库失败: "@,
        FailureKind::OpenExternal => "外部打开失败: "@,
    }
}

pub fn failure_status(k: FailureKind, error: &str) -> (r: String)
    ensures
        r@ == failure_kind_prefix(k) + error@,
{
    let mut s = String::from_str(match k {
        FailureKind::LoadBookmarks => "加载书签失败: ",
        FailureKind::JumpBookmark => "跳转书签失败: ",
        FailureKind::LoadBookmarkDir => "加载书签目录失败: ",
        FailureKind::OpenDatabase => "打开书签数据库失败: ",
        FailureKind::OpenExternal => "外部打开失败: ",
    });
    append_str(&mut s, error);
    s
}

/// The status after opening `path` with the named opener.
pub fn opened_status(opener: &str, path: &str) -> (r: String)
    ensures
        r@ == "已使用"@ + opener@ + "打开 "@ + path@,
{
    let mut s = String::from_str("已使用");
    append_str(&mut s, opener);
    append_str(&mut s, "打开 ");
    append_str(&mut s, path);
    s
}

/// Whether a bookmark of this name already points at `path`; toggling then removes it.
pub open spec fn bookmark_saved_spec(bookmarks: Seq<BookmarkRecord>, name: Seq<char>, path: Seq<char>) -> bool {
    exists|i: int| 0 <= i < bookmarks.len() && #[trigger] bookmarks[i].name@ == name && bookmarks[i].path@ == path
}

pub fn bookmark_is_saved(bookmarks: &Vec<BookmarkRecord>, name: &str, path: &str) -> (r: bool)
    ensures
        r == bookmark_saved_spec(bookmarks@, name@, path@),
{
    let mut i: usize = 0;
    while i < bookmarks.len()
        invariant
            i <= bookmarks.len(),
            forall|j: int| 0 <= j < i ==> !(#[trigger] bookmarks@[j].name@ == name@ && bookmarks@[j].path@ == path@),
        decreases bookmarks.len() - i,
    {
        if str_eq(bookmarks[i].name.as_str(), name) && str_eq(bookmarks[i].path.as_str(), path) {
            return true;
        }
        i = i + 1;
    }
    false
}

} // verus!
