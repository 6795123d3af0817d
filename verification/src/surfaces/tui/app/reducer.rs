//! The browser's state machine: how each action changes the state and which outside
//! work it asks for.
use vstd::prelude::*;
use crate::domain::bookmarks::{duplicate_bookmarks, BookmarkRecord};
use crate::domain::entry::{EntryItem, EntryKind};
use crate::domain::preview::{PreviewModel, PreviewModelView};
use crate::infra::cache::{entries_after_get, entries_after_put, position_of};
use crate::paths::path_key;
use crate::paths::{path_file_name, path_file_name_spec, path_parent, path_parent_spec};
use crate::surfaces::tui::app::action::{apply_edit, edited, Action, InputEdit};
use crate::surfaces::tui::app::effect::{Effect, EffectView};
use crate::surfaces::tui::app::help::{begin_help_spec, end_help_spec, help_categories_spec, rotated_category};
use crate::surfaces::tui::app::state::{
    after_apply_filter, move_next_spec, move_prev_spec, selected_entry_spec, set_entries_post,
    sort_mode_label_spec, sorted_for, AppState, AppStateView, ConfirmIntent, ConfirmIntentView,
    FocusPane, InputMode, OverlayState, OverlayView, SortMode,
};
use crate::text::{
    append_str, decimal, push_decimal, str_eq, str_starts_with, starts_with, trim, trim_ws, views,
    Duplicate,
};

verus! {

/// What a reduction asks of the outside world.
pub struct ReduceResult {
    pub effects: Vec<Effect>,
    pub should_quit: bool,
}

impl ReduceResult {
    /// No outside work, and keep running.
    pub fn none() -> (r: ReduceResult)
        ensures
            r.effects@.len() == 0,
            !r.should_quit,
    {
        ReduceResult { effects: Vec::new(), should_quit: false }
    }
}

fn effects1(e: Effect) -> (r: ReduceResult)
    ensures
        views(r.effects@) == seq![e@],
        !r.should_quit,
{
    let r = ReduceResult { effects: vec![e], should_quit: false };
    assert(views(r.effects@) =~= seq![e@]);
    r
}

fn effects2(a: Effect, b: Effect) -> (r: ReduceResult)
    ensures
        views(r.effects@) == seq![a@, b@],
        !r.should_quit,
{
    let r = ReduceResult { effects: vec![a, b], should_quit: false };
    assert(views(r.effects@) =~= seq![a@, b@]);
    r
}

/// A scroll offset moved by `delta`, clamped to the range of `u16`.
pub open spec fn scrolled(v: u16, delta: i16) -> u16 {
    let t = v + delta;
    if t < 0 {
        0
    } else if t > u16::MAX {
        u16::MAX
    } else {
        t as u16
    }
}

fn scroll_by(v: u16, delta: i16) -> (r: u16)
    ensures
        r == scrolled(v, delta),
{
    let t: i32 = v as i32 + delta as i32;
    if t < 0 {
        0
    } else if t > 65535 {
        65535
    } else {
        t as u16
    }
}

/// Starting to load directory `cwd`.
pub open spec fn load_dir_spec(s: AppStateView, cwd: Seq<char>) -> (AppStateView, Seq<EffectView>) {
    (
        AppStateView {
            cwd,
            preview: PreviewModelView::Loading { path: cwd },
            status: "正在加载 "@ + cwd,
            ..s
        },
        seq![EffectView::LoadDir { cwd, include_hidden: s.include_hidden }],
    )
}

/// Showing the preview of the selected entry: from the cache when it is there,
/// otherwise as loading, with a request to load it.
pub open spec fn request_preview_spec(s: AppStateView) -> (AppStateView, Seq<EffectView>) {
    match selected_entry_spec(s) {
        None => (
            AppStateView {
                preview: PreviewModelView::Loading { path: s.cwd },
                preview_scroll: 0,
                preview_scroll_x: 0,
                ..s
            },
            Seq::empty(),
        ),
        Some(e) => match position_of(s.cache, path_key(e.path@)) {
            Some(i) => (
                AppStateView {
                    preview_scroll: 0,
                    preview_scroll_x: 0,
                    preview_target: Some(e.path@),
                    preview: s.cache[i].1,
                    cache: entries_after_get(s.cache, path_key(e.path@)),
                    ..s
                },
                Seq::empty(),
            ),
            None => (
                AppStateView {
                    preview_scroll: 0,
                    preview_scroll_x: 0,
                    preview_target: Some(e.path@),
                    preview: PreviewModelView::Loading { path: e.path@ },
                    ..s
                },
                seq![EffectView::LoadPreview { entry: e, viewport_hint: 220 }],
            ),
        },
    }
}

pub open spec fn open_reader_spec(s: AppStateView) -> AppStateView {
    if selected_entry_spec(s) is Some {
        AppStateView { overlay: OverlayView::Reader, ..s }
    } else {
        s
    }
}

pub open spec fn toggle_numbers_spec(s: AppStateView) -> AppStateView {
    let shown = !s.show_line_numbers;
    AppStateView {
        show_line_numbers: shown,
        status: if shown { "已显示代码行号"@ } else { "已隐藏代码行号，复制多行代码时更干净"@ },
        ..s
    }
}

pub open spec fn open_note_editor_spec(s: AppStateView) -> AppStateView {
    match selected_entry_spec(s) {
        Some(e) => AppStateView {
            overlay: OverlayView::NoteEditor {
                path: e.path@,
                input: match e.note {
                    Some(n) => n@,
                    None => Seq::empty(),
                },
                original: match e.note {
                    Some(n) => Some(n@),
                    None => None,
                },
            },
            ..s
        },
        None => s,
    }
}

pub open spec fn open_external_spec(s: AppStateView) -> Seq<EffectView> {
    match selected_entry_spec(s) {
        Some(e) => seq![EffectView::OpenExternal(e.path@)],
        None => Seq::empty(),
    }
}

/// The directory a bookmark action refers to: the selected directory, or the current one.
pub open spec fn bookmark_target(s: AppStateView) -> Seq<char> {
    match selected_entry_spec(s) {
        Some(e) => if e.kind == EntryKind::Directory {
            e.path@
        } else {
            s.cwd
        },
        None => s.cwd,
    }
}

/// The default bookmark name of a path: its file name, or "根目录" for the root.
pub open spec fn default_bookmark_name(path: Seq<char>) -> Seq<char> {
    match path_file_name_spec(path) {
        Some(n) => n,
        None => "根目录"@,
    }
}

/// Changing the sort order, then showing the preview of the (new) selection.
pub open spec fn set_sort_rel(
    pre: AppStateView,
    mode: SortMode,
    post: AppStateView,
    effects: Seq<EffectView>,
) -> bool {
    exists|sorted: Seq<EntryItem>|
        #![trigger sorted_for(pre.entries, sorted, mode)]
        sorted_for(pre.entries, sorted, mode) && (post, effects) == request_preview_spec(
            AppStateView {
                status: "排序: "@ + sort_mode_label_spec(mode),
                ..after_apply_filter(AppStateView { sort_mode: mode, entries: sorted, ..pre })
            },
        )
}

/// `s` with every leading occurrence of `p` removed (`str::trim_start_matches`).
pub open spec fn strip_prefixes(s: Seq<char>, p: Seq<char>) -> Seq<char>
    decreases s.len(),
{
    if p.len() > 0 && starts_with(s, p) {
        strip_prefixes(s.skip(p.len() as int), p)
    } else {
        s
    }
}

/// The effect of a command typed on the command line (already trimmed).
pub open spec fn command_rel(
    s: AppStateView,
    command: Seq<char>,
    post: AppStateView,
    effects: Seq<EffectView>,
    quit: bool,
) -> bool {
    if command.len() == 0 {
        post == s && effects.len() == 0 && !quit
    } else if command == "q"@ || command == "quit"@ {
        post == s && effects.len() == 0 && quit
    } else if command == "help"@ {
        post == begin_help_spec(s) && effects.len() == 0 && !quit
    } else if command == "refresh"@ {
        (post, effects) == load_dir_spec(s, s.cwd) && !quit
    } else if command == "toggle hidden"@ {
        (post, effects) == load_dir_spec(
            AppStateView { include_hidden: !s.include_hidden, ..s },
            s.cwd,
        ) && !quit
    } else if command == "toggle numbers"@ {
        post == toggle_numbers_spec(s) && effects.len() == 0 && !quit
    } else if command == "bookmark list"@ {
        post == s && effects == seq![EffectView::LoadBookmarks] && !quit
    } else if starts_with(command, "bookmark add"@) {
        let name = trim_ws(strip_prefixes(command, "bookmark add"@));
        let path = bookmark_target(s);
        post == s && effects == seq![
            EffectView::SaveBookmark {
                name: if name.len() == 0 { default_bookmark_name(path) } else { name },
                path,
            },
        ] && !quit
    } else if starts_with(command, "bookmark jump "@) {
        let name = trim_ws(strip_prefixes(command, "bookmark jump "@));
        if name.len() == 0 {
            post == (AppStateView { status: "bookmark jump 需要提供名称"@, ..s }) && effects.len() == 0
                && !quit
        } else {
            post == s && effects == seq![
                EffectView::JumpBookmark { name, include_hidden: s.include_hidden },
            ] && !quit
        }
    } else if command == "note edit"@ {
        post == open_note_editor_spec(s) && effects.len() == 0 && !quit
    } else if command == "note clear"@ {
        (match selected_entry_spec(s) {
            Some(e) => post == (AppStateView {
                overlay: OverlayView::Confirm {
                    title: "删除备注"@,
                    message: "确定删除备注吗？\n"@ + e.path@,
                    intent: ConfirmIntentView::ClearNote { path: e.path@ },
                    return_to: None,
                },
                ..s
            }),
            None => post == s,
        }) && effects.len() == 0 && !quit
    } else if command == "sort name"@ {
        set_sort_rel(s, SortMode::Name, post, effects) && !quit
    } else if command == "sort mtime"@ {
        set_sort_rel(s, SortMode::Mtime, post, effects) && !quit
    } else if command == "inspect"@ {
        post == open_reader_spec(s) && effects.len() == 0 && !quit
    } else if command == "open external"@ {
        post == s && effects == open_external_spec(s) && !quit
    } else {
        post == (AppStateView { status: "未知命令: "@ + command, ..s }) && effects.len() == 0 && !quit
    }
}

/// A loaded directory: its entries are installed (sorted, filtered, remembered selection
/// restored), the status says so, and the selection's preview is requested.
pub open spec fn dir_loaded_rel(
    pre: AppStateView,
    cwd: Seq<char>,
    entries: Seq<EntryItem>,
    post: AppStateView,
    effects: Seq<EffectView>,
) -> bool {
    exists|loaded: AppStateView|
        #![trigger set_entries_post(AppStateView { cwd, ..pre }, entries, loaded)]
        set_entries_post(AppStateView { cwd, ..pre }, entries, loaded) && (post, effects)
            == request_preview_spec(AppStateView { status: "已加载 "@ + cwd, ..loaded })
}

/// How the state changes and which outside work is requested when `action` happens in `pre`.
pub open spec fn reduce_rel(
    pre: AppStateView,
    action: Action,
    post: AppStateView,
    effects: Seq<EffectView>,
    quit: bool,
) -> bool {
    match action {
        Action::LoadDir(cwd) => (post, effects) == load_dir_spec(pre, cwd@) && !quit,
        Action::DirLoaded { cwd, entries } => dir_loaded_rel(pre, cwd@, entries@, post, effects) && !quit,
        Action::DirFailed(message) => post == (AppStateView { status: message@, ..pre })
            && effects.len() == 0 && !quit,
        Action::MoveDown => (post, effects) == request_preview_spec(move_next_spec(pre)) && !quit,
        Action::MoveUp => (post, effects) == request_preview_spec(move_prev_spec(pre)) && !quit,
        Action::OpenSelected => (match selected_entry_spec(pre) {
            None => post == pre && effects.len() == 0,
            Some(e) => if e.kind == EntryKind::Directory {
                (post, effects) == load_dir_spec(pre, e.path@)
            } else {
                post == open_reader_spec(pre) && effects.len() == 0
            },
        }) && !quit,
        Action::GoParent => (match path_parent_spec(pre.cwd) {
            Some(p) => (post, effects) == load_dir_spec(pre, p),
            None => post == pre && effects.len() == 0,
        }) && !quit,
        Action::Refresh => (post, effects) == load_dir_spec(pre, pre.cwd) && !quit,
        Action::ToggleHidden => (post, effects) == load_dir_spec(
            AppStateView { include_hidden: !pre.include_hidden, ..pre },
            pre.cwd,
        ) && !quit,
        Action::FocusNext => post == (AppStateView {
            focus: match pre.focus {
                FocusPane::Explorer => FocusPane::Preview,
                FocusPane::Preview => FocusPane::Inspector,
                FocusPane::Inspector => FocusPane::Explorer,
            },
            ..pre
        }) && effects.len() == 0 && !quit,
        Action::OpenSearch => post == (AppStateView {
            input_mode: InputMode::Search,
            status: if pre.search_input.len() == 0 {
                "搜索模式"@
            } else {
                "搜索模式：可继续修改当前过滤"@
            },
            ..pre
        }) && effects.len() == 0 && !quit,
        Action::SearchInput(edit) => (post, effects) == request_preview_spec(
            after_apply_filter(AppStateView { search_input: edited(pre.search_input, edit), ..pre }),
        ) && !quit,
        Action::SubmitSearch => (post, effects) == request_preview_spec(
            AppStateView {
                input_mode: InputMode::Normal,
                status: if trim_ws(pre.search_input).len() == 0 {
                    "搜索已清空"@
                } else {
                    "已应用搜索: "@ + pre.search_input + "（"@ + decimal(pre.filtered.len()) + " 项）"@
                },
                ..pre
            },
        ) && !quit,
        Action::ClearSearch => (post, effects) == request_preview_spec(
            {
                let cleared = after_apply_filter(
                    AppStateView { input_mode: InputMode::Normal, search_input: Seq::empty(), ..pre },
                );
                if pre.search_input.len() > 0 {
                    AppStateView { status: "已清除过滤"@, ..cleared }
                } else {
                    cleared
                }
            },
        ) && !quit,
        Action::OpenCommand => post == (AppStateView {
            input_mode: InputMode::Command,
            command_input: Seq::empty(),
            status: "命令模式：help / sort name / bookmark add [name] / note clear"@,
            ..pre
        }) && effects.len() == 0 && !quit,
        Action::CommandInput(edit) => post == (AppStateView {
            command_input: edited(pre.command_input, edit),
            ..pre
        }) && effects.len() == 0 && !quit,
        Action::SubmitCommand => command_rel(
            AppStateView { command_input: Seq::empty(), input_mode: InputMode::Normal, ..pre },
            trim_ws(pre.command_input),
            post,
            effects,
            quit,
        ),
        Action::SetSort(mode) => set_sort_rel(pre, mode, post, effects) && !quit,
        Action::OpenHelp => post == begin_help_spec(pre) && effects.len() == 0 && !quit,
        Action::CloseOverlay => post == (match pre.overlay {
            OverlayView::Help { .. } => end_help_spec(pre),
            OverlayView::Confirm { return_to, .. } => AppStateView {
                overlay: match return_to {
                    Some(o) => *o,
                    None => OverlayView::Closed,
                },
                input_mode: InputMode::Normal,
                ..pre
            },
            _ => AppStateView { overlay: OverlayView::Closed, input_mode: InputMode::Normal, ..pre },
        }) && effects.len() == 0 && !quit,
        Action::HelpInput(edit) => post == (match pre.overlay {
            OverlayView::Help { filter, context, category, .. } => AppStateView {
                overlay: OverlayView::Help { filter: edited(filter, edit), scroll: 0, context, category },
                ..pre
            },
            _ => pre,
        }) && effects.len() == 0 && !quit,
        Action::HelpScroll(delta) => post == (match pre.overlay {
            OverlayView::Help { filter, scroll, context, category } => AppStateView {
                overlay: OverlayView::Help { filter, scroll: scrolled(scroll, delta), context, category },
                ..pre
            },
            _ => pre,
        }) && effects.len() == 0 && !quit,
        Action::HelpNextCategory => post == rotate_spec(pre, true) && effects.len() == 0 && !quit,
        Action::HelpPrevCategory => post == rotate_spec(pre, false) && effects.len() == 0 && !quit,
        Action::OpenNoteEditor => post == open_note_editor_spec(pre) && effects.len() == 0 && !quit,
        Action::NoteInput(edit) => post == (match pre.overlay {
            OverlayView::NoteEditor { path, input, original } => AppStateView {
                overlay: OverlayView::NoteEditor { path, input: edited(input, edit), original },
                ..pre
            },
            _ => pre,
        }) && effects.len() == 0 && !quit,
        Action::NoteClearLine => post == (match pre.overlay {
            OverlayView::NoteEditor { path, original, .. } => AppStateView {
                overlay: OverlayView::NoteEditor { path, input: Seq::empty(), original },
                ..pre
            },
            _ => pre,
        }) && effects.len() == 0 && !quit,
        Action::SaveNote => (match pre.overlay {
            OverlayView::NoteEditor { path, input, original } => post == (AppStateView {
                overlay: OverlayView::Closed,
                status: "正在保存备注: "@ + path,
                ..pre
            }) && effects == seq![
                if trim_ws(input).len() == 0 && original is Some {
                    EffectView::DeleteNote { path }
                } else {
                    EffectView::SaveNote { path, note: input }
                },
                EffectView::LoadDir { cwd: pre.cwd, include_hidden: pre.include_hidden },
            ],
            _ => post == (AppStateView { overlay: OverlayView::Closed, ..pre }) && effects.len() == 0,
        }) && !quit,
        Action::ToggleBookmark => post == pre && effects == seq![
            EffectView::ToggleBookmark {
                name: default_bookmark_name(bookmark_target(pre)),
                path: bookmark_target(pre),
            },
        ] && !quit,
        Action::OpenBookmarkPicker => post == pre && effects == seq![EffectView::LoadBookmarks] && !quit,
        Action::BookmarksLoaded(items) => post == (AppStateView {
            overlay: OverlayView::BookmarkPicker { items: items@, selected: 0 },
            ..pre
        }) && effects.len() == 0 && !quit,
        Action::BookmarkNext => post == (match pre.overlay {
            OverlayView::BookmarkPicker { items, selected } => if items.len() > 0 {
                AppStateView {
                    overlay: OverlayView::BookmarkPicker {
                        items,
                        selected: if selected + 1 < items.len() {
                            (selected + 1) as usize
                        } else {
                            (items.len() - 1) as usize
                        },
                    },
                    ..pre
                }
            } else {
                pre
            },
            _ => pre,
        }) && effects.len() == 0 && !quit,
        Action::BookmarkPrev => post == (match pre.overlay {
            OverlayView::BookmarkPicker { items, selected } => AppStateView {
                overlay: OverlayView::BookmarkPicker {
                    items,
                    selected: if selected > 0 { (selected - 1) as usize } else { 0 },
                },
                ..pre
            },
            _ => pre,
        }) && effects.len() == 0 && !quit,
        Action::ConfirmBookmark => (match pre.overlay {
            OverlayView::BookmarkPicker { items, selected } => if selected < items.len() {
                (post, effects) == load_dir_spec(
                    AppStateView { overlay: OverlayView::Closed, ..pre },
                    items[selected as int].path@,
                )
            } else {
                post == pre && effects.len() == 0
            },
            _ => post == pre && effects.len() == 0,
        }) && !quit,
        Action::DeleteBookmark => (match pre.overlay {
            OverlayView::BookmarkPicker { items, selected } => if selected < items.len() {
                let name = items[selected as int].name@;
                post == (AppStateView {
                    overlay: OverlayView::Confirm {
                        title: "删除书签"@,
                        message: "确定删除书签“"@ + name + "”吗？"@,
                        intent: ConfirmIntentView::DeleteBookmark { name },
                        return_to: Some(Box::new(pre.overlay)),
                    },
                    ..pre
                })
            } else {
                post == pre
            },
            _ => post == pre,
        }) && effects.len() == 0 && !quit,
        Action::ConfirmAccept => (match pre.overlay {
            OverlayView::Confirm { intent, return_to, .. } => {
                let back = AppStateView {
                    overlay: match return_to {
                        Some(o) => *o,
                        None => OverlayView::Closed,
                    },
                    ..pre
                };
                post == back && effects == match intent {
                    ConfirmIntentView::DeleteBookmark { name } => seq![
                        EffectView::DeleteBookmark { name },
                    ],
                    ConfirmIntentView::ClearNote { path } => seq![
                        EffectView::DeleteNote { path },
                        EffectView::LoadDir { cwd: pre.cwd, include_hidden: pre.include_hidden },
                    ],
                }
            },
            _ => post == (AppStateView { overlay: OverlayView::Closed, ..pre }) && effects.len() == 0,
        }) && !quit,
        Action::RequestPreview => (post, effects) == request_preview_spec(pre) && !quit,
        Action::OpenReader => post == open_reader_spec(pre) && effects.len() == 0 && !quit,
        Action::PreviewLoaded { path, preview } => post == (AppStateView {
            cache: entries_after_put(pre.cache, pre.cache_capacity, path_key(path@), preview@),
            preview: if pre.preview_target == Some(path@) {
                preview@
            } else {
                pre.preview
            },
            ..pre
        }) && effects.len() == 0 && !quit,
        Action::ScrollPreview(delta) => post == (AppStateView {
            preview_scroll: scrolled(pre.preview_scroll, delta),
            ..pre
        }) && effects.len() == 0 && !quit,
        Action::ScrollPreviewHorizontal(delta) => post == (AppStateView {
            preview_scroll_x: scrolled(pre.preview_scroll_x, delta),
            ..pre
        }) && effects.len() == 0 && !quit,
        Action::ToggleLineNumbers => post == toggle_numbers_spec(pre) && effects.len() == 0 && !quit,
        Action::FocusExplorer => post == (AppStateView { focus: FocusPane::Explorer, ..pre })
            && effects.len() == 0 && !quit,
        Action::OpenExternal => post == pre && effects == open_external_spec(pre) && !quit,
        Action::Status(message) => post == (AppStateView { status: message@, ..pre })
            && effects.len() == 0 && !quit,
        Action::Quit => post == pre && effects.len() == 0 && quit,
    }
}

/// The help overlay moved to the next or previous category.
pub open spec fn rotate_spec(s: AppStateView, forward: bool) -> AppStateView {
    match s.overlay {
        OverlayView::Help { filter, context, category, .. } => AppStateView {
            overlay: OverlayView::Help {
                filter,
                scroll: 0,
                context,
                category: rotated_category(
                    help_categories_spec(s.key_bindings, context),
                    category,
                    forward,
                ),
            },
            ..s
        },
        _ => s,
    }
}

fn load_dir(state: &mut AppState, cwd: String) -> (r: ReduceResult)
    ensures
        (final(state)@, views(r.effects@)) == load_dir_spec(old(state)@, cwd@),
        !r.should_quit,
{
    let path = cwd.clone();
    let mut status = String::from_str("正在加载 ");
    append_str(&mut status, cwd.as_str());
    state.preview = PreviewModel::Loading { path: cwd.clone() };
    state.cwd = cwd;
    state.set_status(status);
    effects1(Effect::LoadDir { cwd: path, include_hidden: state.include_hidden })
}

fn request_preview(state: &mut AppState) -> (r: ReduceResult)
    ensures
        (final(state)@, views(r.effects@)) == request_preview_spec(old(state)@),
        !r.should_quit,
{
    let entry = match state.selected_entry_clone() {
        Some(e) => e,
        None => {
            state.preview = PreviewModel::Loading { path: state.cwd.clone() };
            state.reset_preview_position();
            return ReduceResult::none();
        },
    };
    state.reset_preview_position();
    let ghost before = state@;
    match state.preview_cache.get(&entry.path) {
        Some(cached) => {
            state.preview_target = Some(entry.path.clone());
            state.preview = cached;
            ReduceResult::none()
        },
        None => {
            state.preview_target = Some(entry.path.clone());
            state.preview = PreviewModel::Loading { path: entry.path.clone() };
            effects1(Effect::LoadPreview { entry, viewport_hint: 220 })
        },
    }
}

fn open_reader(state: &mut AppState)
    ensures
        final(state)@ == open_reader_spec(old(state)@),
{
    if state.selected_entry().is_some() {
        state.overlay = OverlayState::Reader;
    }
}

fn toggle_line_numbers(state: &mut AppState)
    ensures
        final(state)@ == toggle_numbers_spec(old(state)@),
{
    state.show_line_numbers = !state.show_line_numbers;
    let status = if state.show_line_numbers {
        String::from_str("已显示代码行号")
    } else {
        String::from_str("已隐藏代码行号，复制多行代码时更干净")
    };
    state.set_status(status);
}

fn open_note_editor(state: &mut AppState)
    ensures
        final(state)@ == open_note_editor_spec(old(state)@),
{
    let entry = match state.selected_entry_clone() {
        Some(e) => e,
        None => return,
    };
    let input = match &entry.note {
        Some(n) => n.clone(),
        None => String::new(),
    };
    state.overlay = OverlayState::NoteEditor { path: entry.path, input, original: entry.note };
}

fn open_external(state: &mut AppState) -> (r: ReduceResult)
    ensures
        final(state)@ == old(state)@,
        views(r.effects@) == open_external_spec(old(state)@),
        !r.should_quit,
{
    match state.selected_entry_path() {
        Some(p) => effects1(Effect::OpenExternal(p.clone())),
        None => ReduceResult::none(),
    }
}

fn bookmark_target_path(state: &AppState) -> (r: String)
    ensures
        r@ == bookmark_target(state@),
{
    match state.selected_entry() {
        Some(e) => if e.kind == EntryKind::Directory {
            e.path.clone()
        } else {
            state.cwd.clone()
        },
        None => state.cwd.clone(),
    }
}

fn bookmark_name_for(path: &String) -> (r: String)
    ensures
        r@ == default_bookmark_name(path@),
{
    match path_file_name(path.as_str()) {
        Some(n) => n,
        None => String::from_str("根目录"),
    }
}

fn set_sort(state: &mut AppState, mode: SortMode) -> (r: ReduceResult)
    ensures
        set_sort_rel(old(state)@, mode, final(state)@, views(r.effects@)),
        !r.should_quit,
{
    let ghost pre = state@;
    state.set_sort_mode(mode);
    let ghost sorted = choose|sorted: Seq<EntryItem>|
        sorted_for(pre.entries, sorted, mode) && state@ == after_apply_filter(
            (AppStateView { sort_mode: mode, entries: sorted, ..pre }),
        );
    let mut status = String::from_str("排序: ");
    append_str(&mut status, state.sort_mode_label());
    state.set_status(status);
    let r = request_preview(state);
    assert(sorted_for(pre.entries, sorted, mode));
    r
}

fn rest_starts_with(chars: &Vec<char>, start: usize, prefix: &Vec<char>) -> (r: bool)
    requires
        start <= chars.len(),
    ensures
        r == starts_with(chars@.skip(start as int), prefix@),
        r ==> start + prefix.len() <= chars.len(),
{
    let rest = crate::text::slice_chars(chars, start, chars.len());
    assert(rest@ =~= chars@.skip(start as int));
    crate::text::chars_start_with(&rest, prefix)
}

/// Removes every leading occurrence of `p` from `s`.
fn strip_prefix_repeatedly(s: &str, p: &str) -> (r: String)
    requires
        p@.len() > 0,
    ensures
        r@ == strip_prefixes(s@, p@),
{
    let chars = crate::text::chars_of(s);
    let pre = crate::text::chars_of(p);
    let mut start: usize = 0;
    assert(chars@.skip(0) =~= chars@);
    while rest_starts_with(&chars, start, &pre)
        invariant
            start <= chars.len(),
            pre@ == p@,
            pre@.len() > 0,
            strip_prefixes(s@, p@) == strip_prefixes(chars@.skip(start as int), p@),
            chars@ == s@,
        decreases chars.len() - start,
    {
        assert(chars@.skip(start as int).skip(pre.len() as int) =~= chars@.skip(start + pre.len()));
        start = start + pre.len();
    }
    let rest = crate::text::slice_chars(&chars, start, chars.len());
    assert(rest@ =~= chars@.skip(start as int));
    crate::text::string_from(&rest)
}

fn handle_command(state: &mut AppState, command: &String) -> (r: ReduceResult)
    ensures
        command_rel(old(state)@, command@, final(state)@, views(r.effects@), r.should_quit),
{
    let c = command.as_str();
    if c.unicode_len() == 0 {
        ReduceResult::none()
    } else if str_eq(c, "q") || str_eq(c, "quit") {
        ReduceResult { effects: Vec::new(), should_quit: true }
    } else if str_eq(c, "help") {
        state.begin_help_overlay();
        ReduceResult::none()
    } else if str_eq(c, "refresh") {
        let cwd = state.cwd.clone();
        load_dir(state, cwd)
    } else if str_eq(c, "toggle hidden") {
        state.include_hidden = !state.include_hidden;
        let cwd = state.cwd.clone();
        load_dir(state, cwd)
    } else if str_eq(c, "toggle numbers") {
        toggle_line_numbers(state);
        ReduceResult::none()
    } else if str_eq(c, "bookmark list") {
        effects1(Effect::LoadBookmarks)
    } else if str_starts_with(c, "bookmark add") {
        proof {
            reveal_strlit("bookmark add");
        }
        let rest = strip_prefix_repeatedly(c, "bookmark add");
        let name = trim(rest.as_str());
        let path = bookmark_target_path(state);
        let name = if name.as_str().unicode_len() == 0 {
            bookmark_name_for(&path)
        } else {
            name
        };
        effects1(Effect::SaveBookmark { name, path })
    } else if str_starts_with(c, "bookmark jump ") {
        proof {
            reveal_strlit("bookmark jump ");
        }
        let rest = strip_prefix_repeatedly(c, "bookmark jump ");
        let name = trim(rest.as_str());
        if name.as_str().unicode_len() == 0 {
            state.set_status(String::from_str("bookmark jump 需要提供名称"));
            return ReduceResult::none();
        }
        effects1(Effect::JumpBookmark { name, include_hidden: state.include_hidden })
    } else if str_eq(c, "note edit") {
        open_note_editor(state);
        ReduceResult::none()
    } else if str_eq(c, "note clear") {
        match state.selected_entry_path() {
            Some(p) => {
                let path = p.clone();
                let mut message = String::from_str("确定删除备注吗？\n");
                append_str(&mut message, path.as_str());
                state.overlay = OverlayState::Confirm {
                    title: String::from_str("删除备注"),
                    message,
                    intent: ConfirmIntent::ClearNote { path },
                    return_to: None,
                };
            },
            None => {},
        }
        ReduceResult::none()
    } else if str_eq(c, "sort name") {
        set_sort(state, SortMode::Name)
    } else if str_eq(c, "sort mtime") {
        set_sort(state, SortMode::Mtime)
    } else if str_eq(c, "inspect") {
        open_reader(state);
        ReduceResult::none()
    } else if str_eq(c, "open external") {
        open_external(state)
    } else {
        let mut status = String::from_str("未知命令: ");
        append_str(&mut status, c);
        state.set_status(status);
        ReduceResult::none()
    }
}

fn on_load_dir(state: &mut AppState, cwd: String) -> (r: ReduceResult)
    ensures
        reduce_rel(old(state)@, Action::LoadDir(cwd), final(state)@, views(r.effects@), r.should_quit),
{
    load_dir(state, cwd)
}

fn on_dir_loaded(state: &mut AppState, cwd: String, entries: Vec<EntryItem>) -> (r: ReduceResult)
    ensures
        reduce_rel(old(state)@, Action::DirLoaded { cwd, entries }, final(state)@, views(r.effects@), r.should_quit),
{
    let ghost es = entries@;
    let ghost pre = state@;
    let ghost cwd_v = cwd@;
    let mut status = String::from_str("已加载 ");
    append_str(&mut status, cwd.as_str());
    state.cwd = cwd;
    let ghost with_cwd = state@;
    state.set_entries(entries);
    let ghost loaded = state@;
    state.set_status(status);
    let r = request_preview(state);
    assert(with_cwd == (AppStateView { cwd: cwd_v, ..pre }));
    assert(set_entries_post(with_cwd, es, loaded));
    assert(status@ == "已加载 "@ + cwd_v);
    assert(set_entries_post((AppStateView { cwd: cwd_v, ..pre }), es, loaded) && (state@, views(r.effects@))
        == request_preview_spec((AppStateView { status: "已加载 "@ + cwd_v, ..loaded })));
    assert(dir_loaded_rel(pre, cwd_v, es, state@, views(r.effects@)));
    r
}

fn on_dir_failed(state: &mut AppState, message: String) -> (r: ReduceResult)
    ensures
        reduce_rel(old(state)@, Action::DirFailed(message), final(state)@, views(r.effects@), r.should_quit),
{
    state.set_status(message);
    ReduceResult::none()
}

fn on_move_down(state: &mut AppState) -> (r: ReduceResult)
    ensures
        reduce_rel(old(state)@, Action::MoveDown, final(state)@, views(r.effects@), r.should_quit),
{
    state.move_next();
    request_preview(state)
}

fn on_move_up(state: &mut AppState) -> (r: ReduceResult)
    ensures
        reduce_rel(old(state)@, Action::MoveUp, final(state)@, views(r.effects@), r.should_quit),
{
    state.move_prev();
    request_preview(state)
}

fn on_open_selected(state: &mut AppState) -> (r: ReduceResult)
    ensures
        reduce_rel(old(state)@, Action::OpenSelected, final(state)@, views(r.effects@), r.should_quit),
{
    let entry = match state.selected_entry_clone() {
        Some(e) => e,
        None => return ReduceResult::none(),
    };
    if entry.kind == EntryKind::Directory {
        load_dir(state, entry.path)
    } else {
        open_reader(state);
        ReduceResult::none()
    }
}

fn on_go_parent(state: &mut AppState) -> (r: ReduceResult)
    ensures
        reduce_rel(old(state)@, Action::GoParent, final(state)@, views(r.effects@), r.should_quit),
{
    match path_parent(state.cwd.as_str()) {
            Some(parent) => load_dir(state, parent),
            None => ReduceResult::none(),
        }
}

fn on_refresh(state: &mut AppState) -> (r: ReduceResult)
    ensures
        reduce_rel(old(state)@, Action::Refresh, final(state)@, views(r.effects@), r.should_quit),
{
    let cwd = state.cwd.clone();
    load_dir(state, cwd)
}

fn on_toggle_hidden(state: &mut AppState) -> (r: ReduceResult)
    ensures
        reduce_rel(old(state)@, Action::ToggleHidden, final(state)@, views(r.effects@), r.should_quit),
{
    state.include_hidden = !state.include_hidden;
    let cwd = state.cwd.clone();
    load_dir(state, cwd)
}

fn on_focus_next(state: &mut AppState) -> (r: ReduceResult)
    ensures
        reduce_rel(old(state)@, Action::FocusNext, final(state)@, views(r.effects@), r.should_quit),
{
    state.focus = match state.focus {
        FocusPane::Explorer => FocusPane::Preview,
        FocusPane::Preview => FocusPane::Inspector,
        FocusPane::Inspector => FocusPane::Explorer,
    };
    ReduceResult::none()
}

fn on_open_search(state: &mut AppState) -> (r: ReduceResult)
    ensures
        reduce_rel(old(state)@, Action::OpenSearch, final(state)@, views(r.effects@), r.should_quit),
{
    state.input_mode = InputMode::Search;
    let status = if state.search_input.as_str().unicode_len() == 0 {
        String::from_str("搜索模式")
    } else {
        String::from_str("搜索模式：可继续修改当前过滤")
    };
    state.set_status(status);
    ReduceResult::none()
}

fn on_search_input(state: &mut AppState, edit: InputEdit) -> (r: ReduceResult)
    ensures
        reduce_rel(old(state)@, Action::SearchInput(edit), final(state)@, views(r.effects@), r.should_quit),
{
    apply_edit(&mut state.search_input, edit);
    state.apply_filter();
    request_preview(state)
}

fn on_submit_search(state: &mut AppState) -> (r: ReduceResult)
    ensures
        reduce_rel(old(state)@, Action::SubmitSearch, final(state)@, views(r.effects@), r.should_quit),
{
    state.input_mode = InputMode::Normal;
    let trimmed = trim(state.search_input.as_str());
    if trimmed.as_str().unicode_len() == 0 {
        state.set_status(String::from_str("搜索已清空"));
    } else {
        let mut status = String::from_str("已应用搜索: ");
        append_str(&mut status, state.search_input.as_str());
        append_str(&mut status, "（");
        push_decimal(&mut status, state.visible_len() as u64);
        append_str(&mut status, " 项）");
        state.set_status(status);
    }
    request_preview(state)
}

fn on_clear_search(state: &mut AppState) -> (r: ReduceResult)
    ensures
        reduce_rel(old(state)@, Action::ClearSearch, final(state)@, views(r.effects@), r.should_quit),
{
    let had_filter = state.search_input.as_str().unicode_len() > 0;
    state.input_mode = InputMode::Normal;
    state.search_input = String::new();
    state.apply_filter();
    if had_filter {
        state.set_status(String::from_str("已清除过滤"));
    }
    request_preview(state)
}

fn on_open_command(state: &mut AppState) -> (r: ReduceResult)
    ensures
        reduce_rel(old(state)@, Action::OpenCommand, final(state)@, views(r.effects@), r.should_quit),
{
    state.input_mode = InputMode::Command;
    state.command_input = String::new();
    state.set_status(
        String::from_str("命令模式：help / sort name / bookmark add [name] / note clear"),
    );
    ReduceResult::none()
}

fn on_command_input(state: &mut AppState, edit: InputEdit) -> (r: ReduceResult)
    ensures
        reduce_rel(old(state)@, Action::CommandInput(edit), final(state)@, views(r.effects@), r.should_quit),
{
    apply_edit(&mut state.command_input, edit);
    ReduceResult::none()
}

fn on_submit_command(state: &mut AppState) -> (r: ReduceResult)
    ensures
        reduce_rel(old(state)@, Action::SubmitCommand, final(state)@, views(r.effects@), r.should_quit),
{
    let command = trim(state.command_input.as_str());
    state.command_input = String::new();
    state.input_mode = InputMode::Normal;
    handle_command(state, &command)
}

fn on_set_sort(state: &mut AppState, mode: SortMode) -> (r: ReduceResult)
    ensures
        reduce_rel(old(state)@, Action::SetSort(mode), final(state)@, views(r.effects@), r.should_quit),
{
    set_sort(state, mode)
}

fn on_open_help(state: &mut AppState) -> (r: ReduceResult)
    ensures
        reduce_rel(old(state)@, Action::OpenHelp, final(state)@, views(r.effects@), r.should_quit),
{
    state.begin_help_overlay();
    ReduceResult::none()
}

fn on_close_overlay(state: &mut AppState) -> (r: ReduceResult)
    ensures
        reduce_rel(old(state)@, Action::CloseOverlay, final(state)@, views(r.effects@), r.should_quit),
{
    let back = match &state.overlay {
        OverlayState::Help { .. } => None,
        OverlayState::Confirm { return_to, .. } => Some(
            match return_to {
                Some(o) => (**o).duplicate(),
                None => OverlayState::Closed,
            },
        ),
        _ => Some(OverlayState::Closed),
    };
    match back {
        None => state.end_help_overlay(),
        Some(o) => {
            state.overlay = o;
            state.input_mode = InputMode::Normal;
        },
    }
    ReduceResult::none()
}

fn on_help_input(state: &mut AppState, edit: InputEdit) -> (r: ReduceResult)
    ensures
        reduce_rel(old(state)@, Action::HelpInput(edit), final(state)@, views(r.effects@), r.should_quit),
{
    if let OverlayState::Help { filter, scroll, .. } = &mut state.overlay {
        apply_edit(filter, edit);
        *scroll = 0;
    }
    ReduceResult::none()
}

fn on_help_next_category(state: &mut AppState) -> (r: ReduceResult)
    ensures
        reduce_rel(old(state)@, Action::HelpNextCategory, final(state)@, views(r.effects@), r.should_quit),
{
    state.rotate_help_category(true);
    ReduceResult::none()
}

fn on_help_prev_category(state: &mut AppState) -> (r: ReduceResult)
    ensures
        reduce_rel(old(state)@, Action::HelpPrevCategory, final(state)@, views(r.effects@), r.should_quit),
{
    state.rotate_help_category(false);
    ReduceResult::none()
}

fn on_help_scroll(state: &mut AppState, delta: i16) -> (r: ReduceResult)
    ensures
        reduce_rel(old(state)@, Action::HelpScroll(delta), final(state)@, views(r.effects@), r.should_quit),
{
    if let OverlayState::Help { scroll, .. } = &mut state.overlay {
        *scroll = scroll_by(*scroll, delta);
    }
    ReduceResult::none()
}

fn on_open_note_editor(state: &mut AppState) -> (r: ReduceResult)
    ensures
        reduce_rel(old(state)@, Action::OpenNoteEditor, final(state)@, views(r.effects@), r.should_quit),
{
    open_note_editor(state);
    ReduceResult::none()
}

fn on_note_input(state: &mut AppState, edit: InputEdit) -> (r: ReduceResult)
    ensures
        reduce_rel(old(state)@, Action::NoteInput(edit), final(state)@, views(r.effects@), r.should_quit),
{
    if let OverlayState::NoteEditor { input, .. } = &mut state.overlay {
        apply_edit(input, edit);
    }
    ReduceResult::none()
}

fn on_note_clear_line(state: &mut AppState) -> (r: ReduceResult)
    ensures
        reduce_rel(old(state)@, Action::NoteClearLine, final(state)@, views(r.effects@), r.should_quit),
{
    if let OverlayState::NoteEditor { input, .. } = &mut state.overlay {
        *input = String::new();
    }
    ReduceResult::none()
}

fn on_save_note(state: &mut AppState) -> (r: ReduceResult)
    ensures
        reduce_rel(old(state)@, Action::SaveNote, final(state)@, views(r.effects@), r.should_quit),
{
    let mut overlay = OverlayState::Closed;
    std::mem::swap(&mut overlay, &mut state.overlay);
    match overlay {
        OverlayState::NoteEditor { path, input, original } => {
            let mut status = String::from_str("正在保存备注: ");
            append_str(&mut status, path.as_str());
            state.set_status(status);
            let trimmed = trim(input.as_str());
            let effect = if trimmed.as_str().unicode_len() == 0 && original.is_some() {
                Effect::DeleteNote { path }
            } else {
                Effect::SaveNote { path, note: input }
            };
            effects2(
                effect,
                Effect::LoadDir { cwd: state.cwd.clone(), include_hidden: state.include_hidden },
            )
        },
        _ => ReduceResult::none(),
    }
}

fn on_toggle_bookmark(state: &mut AppState) -> (r: ReduceResult)
    ensures
        reduce_rel(old(state)@, Action::ToggleBookmark, final(state)@, views(r.effects@), r.should_quit),
{
    let path = bookmark_target_path(state);
    let name = bookmark_name_for(&path);
    effects1(Effect::ToggleBookmark { name, path })
}

fn on_open_bookmark_picker(state: &mut AppState) -> (r: ReduceResult)
    ensures
        reduce_rel(old(state)@, Action::OpenBookmarkPicker, final(state)@, views(r.effects@), r.should_quit),
{
    effects1(Effect::LoadBookmarks)
}

fn on_bookmarks_loaded(state: &mut AppState, bookmarks: Vec<BookmarkRecord>) -> (r: ReduceResult)
    ensures
        reduce_rel(old(state)@, Action::BookmarksLoaded(bookmarks), final(state)@, views(r.effects@), r.should_quit),
{
    state.overlay = OverlayState::BookmarkPicker { items: bookmarks, selected: 0 };
    ReduceResult::none()
}

fn on_bookmark_next(state: &mut AppState) -> (r: ReduceResult)
    ensures
        reduce_rel(old(state)@, Action::BookmarkNext, final(state)@, views(r.effects@), r.should_quit),
{
    if let OverlayState::BookmarkPicker { items, selected } = &mut state.overlay {
        if items.len() > 0 {
            *selected = if *selected < items.len() - 1 {
                *selected + 1
            } else {
                items.len() - 1
            };
        }
    }
    ReduceResult::none()
}

fn on_bookmark_prev(state: &mut AppState) -> (r: ReduceResult)
    ensures
        reduce_rel(old(state)@, Action::BookmarkPrev, final(state)@, views(r.effects@), r.should_quit),
{
    if let OverlayState::BookmarkPicker { selected, .. } = &mut state.overlay {
        *selected = if *selected > 0 { *selected - 1 } else { 0 };
    }
    ReduceResult::none()
}

fn on_confirm_bookmark(state: &mut AppState) -> (r: ReduceResult)
    ensures
        reduce_rel(old(state)@, Action::ConfirmBookmark, final(state)@, views(r.effects@), r.should_quit),
{
    let target = match &state.overlay {
        OverlayState::BookmarkPicker { items, selected } => if *selected < items.len() {
            Some(items[*selected].path.clone())
        } else {
            None
        },
        _ => None,
    };
    match target {
        Some(path) => {
            state.overlay = OverlayState::Closed;
            load_dir(state, path)
        },
        None => ReduceResult::none(),
    }
}

fn on_delete_bookmark(state: &mut AppState) -> (r: ReduceResult)
    ensures
        reduce_rel(old(state)@, Action::DeleteBookmark, final(state)@, views(r.effects@), r.should_quit),
{
    let target = match &state.overlay {
        OverlayState::BookmarkPicker { items, selected } => if *selected < items.len() {
            Some(items[*selected].name.clone())
        } else {
            None
        },
        _ => None,
    };
    if let Some(name) = target {
        let mut message = String::from_str("确定删除书签“");
        append_str(&mut message, name.as_str());
        append_str(&mut message, "”吗？");
        let back = state.overlay.duplicate();
        state.overlay = OverlayState::Confirm {
            title: String::from_str("删除书签"),
            message,
            intent: ConfirmIntent::DeleteBookmark { name },
            return_to: Some(Box::new(back)),
        };
    }
    ReduceResult::none()
}

fn on_confirm_accept(state: &mut AppState) -> (r: ReduceResult)
    ensures
        reduce_rel(old(state)@, Action::ConfirmAccept, final(state)@, views(r.effects@), r.should_quit),
{
    let mut overlay = OverlayState::Closed;
    std::mem::swap(&mut overlay, &mut state.overlay);
    match overlay {
        OverlayState::Confirm { intent, return_to, .. } => {
            state.overlay = match return_to {
                Some(o) => *o,
                None => OverlayState::Closed,
            };
            match intent {
                ConfirmIntent::DeleteBookmark { name } => effects1(
                    Effect::DeleteBookmark { name },
                ),
                ConfirmIntent::ClearNote { path } => effects2(
                    Effect::DeleteNote { path },
                    Effect::LoadDir {
                        cwd: state.cwd.clone(),
                        include_hidden: state.include_hidden,
                    },
                ),
            }
        },
        _ => ReduceResult::none(),
    }
}

fn on_request_preview(state: &mut AppState) -> (r: ReduceResult)
    ensures
        reduce_rel(old(state)@, Action::RequestPreview, final(state)@, views(r.effects@), r.should_quit),
{
    request_preview(state)
}

fn on_open_reader(state: &mut AppState) -> (r: ReduceResult)
    ensures
        reduce_rel(old(state)@, Action::OpenReader, final(state)@, views(r.effects@), r.should_quit),
{
    open_reader(state);
    ReduceResult::none()
}

fn on_preview_loaded(state: &mut AppState, path: String, preview: PreviewModel) -> (r: ReduceResult)
    ensures
        reduce_rel(old(state)@, Action::PreviewLoaded { path, preview }, final(state)@, views(r.effects@), r.should_quit),
{
    let is_target = match &state.preview_target {
        Some(t) => str_eq(t.as_str(), path.as_str()),
        None => false,
    };
    state.preview_cache.put(path.clone(), preview.duplicate());
    if is_target {
        state.preview = preview;
    }
    ReduceResult::none()
}

fn on_scroll_preview(state: &mut AppState, delta: i16) -> (r: ReduceResult)
    ensures
        reduce_rel(old(state)@, Action::ScrollPreview(delta), final(state)@, views(r.effects@), r.should_quit),
{
    state.preview_scroll = scroll_by(state.preview_scroll, delta);
    ReduceResult::none()
}

fn on_scroll_preview_horizontal(state: &mut AppState, delta: i16) -> (r: ReduceResult)
    ensures
        reduce_rel(old(state)@, Action::ScrollPreviewHorizontal(delta), final(state)@, views(r.effects@), r.should_quit),
{
    state.preview_scroll_x = scroll_by(state.preview_scroll_x, delta);
    ReduceResult::none()
}

fn on_toggle_line_numbers(state: &mut AppState) -> (r: ReduceResult)
    ensures
        reduce_rel(old(state)@, Action::ToggleLineNumbers, final(state)@, views(r.effects@), r.should_quit),
{
    toggle_line_numbers(state);
    ReduceResult::none()
}

fn on_focus_explorer(state: &mut AppState) -> (r: ReduceResult)
    ensures
        reduce_rel(old(state)@, Action::FocusExplorer, final(state)@, views(r.effects@), r.should_quit),
{
    state.focus = FocusPane::Explorer;
    ReduceResult::none()
}

fn on_open_external(state: &mut AppState) -> (r: ReduceResult)
    ensures
        reduce_rel(old(state)@, Action::OpenExternal, final(state)@, views(r.effects@), r.should_quit),
{
    open_external(state)
}

fn on_status(state: &mut AppState, message: String) -> (r: ReduceResult)
    ensures
        reduce_rel(old(state)@, Action::Status(message), final(state)@, views(r.effects@), r.should_quit),
{
    state.set_status(message);
    ReduceResult::none()
}

fn on_quit(state: &mut AppState) -> (r: ReduceResult)
    ensures
        reduce_rel(old(state)@, Action::Quit, final(state)@, views(r.effects@), r.should_quit),
{
    ReduceResult { effects: Vec::new(), should_quit: true }
}

/// Applies `action` to the state; returns the outside work to do and whether to quit.
pub fn reduce(state: &mut AppState, action: Action) -> (r: ReduceResult)
    ensures
        reduce_rel(old(state)@, action, final(state)@, views(r.effects@), r.should_quit),
{
    match action {
        Action::LoadDir(cwd) => on_load_dir(state, cwd),
        Action::DirLoaded { cwd, entries } => on_dir_loaded(state, cwd, entries),
        Action::DirFailed(message) => on_dir_failed(state, message),
        Action::MoveDown => on_move_down(state),
        Action::MoveUp => on_move_up(state),
        Action::OpenSelected => on_open_selected(state),
        Action::GoParent => on_go_parent(state),
        Action::Refresh => on_refresh(state),
        Action::ToggleHidden => on_toggle_hidden(state),
        Action::FocusNext => on_focus_next(state),
        Action::OpenSearch => on_open_search(state),
        Action::SearchInput(edit) => on_search_input(state, edit),
        Action::SubmitSearch => on_submit_search(state),
        Action::ClearSearch => on_clear_search(state),
        Action::OpenCommand => on_open_command(state),
        Action::CommandInput(edit) => on_command_input(state, edit),
        Action::SubmitCommand => on_submit_command(state),
        Action::SetSort(mode) => on_set_sort(state, mode),
        Action::OpenHelp => on_open_help(state),
        Action::CloseOverlay => on_close_overlay(state),
        Action::HelpInput(edit) => on_help_input(state, edit),
        Action::HelpNextCategory => on_help_next_category(state),
        Action::HelpPrevCategory => on_help_prev_category(state),
        Action::HelpScroll(delta) => on_help_scroll(state, delta),
        Action::OpenNoteEditor => on_open_note_editor(state),
        Action::NoteInput(edit) => on_note_input(state, edit),
        Action::NoteClearLine => on_note_clear_line(state),
        Action::SaveNote => on_save_note(state),
        Action::ToggleBookmark => on_toggle_bookmark(state),
        Action::OpenBookmarkPicker => on_open_bookmark_picker(state),
        Action::BookmarksLoaded(bookmarks) => on_bookmarks_loaded(state, bookmarks),
        Action::BookmarkNext => on_bookmark_next(state),
        Action::BookmarkPrev => on_bookmark_prev(state),
        Action::ConfirmBookmark => on_confirm_bookmark(state),
        Action::DeleteBookmark => on_delete_bookmark(state),
        Action::ConfirmAccept => on_confirm_accept(state),
        Action::RequestPreview => on_request_preview(state),
        Action::OpenReader => on_open_reader(state),
        Action::PreviewLoaded { path, preview } => on_preview_loaded(state, path, preview),
        Action::ScrollPreview(delta) => on_scroll_preview(state, delta),
        Action::ScrollPreviewHorizontal(delta) => on_scroll_preview_horizontal(state, delta),
        Action::ToggleLineNumbers => on_toggle_line_numbers(state),
        Action::FocusExplorer => on_focus_explorer(state),
        Action::OpenExternal => on_open_external(state),
        Action::Status(message) => on_status(state, message),
        Action::Quit => on_quit(state),
    }
}

} // verus!
