//! What can happen to the browser.
use vstd::prelude::*;
use crate::domain::bookmarks::BookmarkRecord;
use crate::domain::entry::EntryItem;
use crate::domain::preview::PreviewModel;
use crate::surfaces::tui::app::state::SortMode;

verus! {

/// An edit of a one-line input.
#[derive(Debug, Clone, Copy, PartialEq, Eq, Structural)]
pub enum InputEdit {
    Insert(char),
    Backspace,
}

/// The text after an edit.
pub open spec fn edited(s: Seq<char>, edit: InputEdit) -> Seq<char> {
    match edit {
        InputEdit::Insert(c) => s.push(c),
        InputEdit::Backspace => if s.len() > 0 { s.drop_last() } else { s },
    }
}

/// Applies an edit to a one-line input.
pub fn apply_edit(s: &mut String, edit: InputEdit)
    ensures
        final(s)@ == edited(old(s)@, edit),
{
    match edit {
        InputEdit::Insert(c) => crate::text::push_char(s, c),
        InputEdit::Backspace => crate::text::pop_char(s),
    }
}

/// A user intent or a completed piece of outside work.
#[derive(Debug, Clone)]
pub enum Action {
    LoadDir(String),
    DirLoaded { cwd: String, entries: Vec<EntryItem> },
    DirFailed(String),
    MoveDown,
    MoveUp,
    OpenSelected,
    GoParent,
    Refresh,
    ToggleHidden,
    FocusNext,
    OpenSearch,
    SearchInput(InputEdit),
    SubmitSearch,
    ClearSearch,
    OpenCommand,
    CommandInput(InputEdit),
    SubmitCommand,
    SetSort(SortMode),
    OpenHelp,
    CloseOverlay,
    HelpInput(InputEdit),
    HelpScroll(i16),
    HelpNextCategory,
    HelpPrevCategory,
    OpenNoteEditor,
    NoteInput(InputEdit),
    NoteClearLine,
    SaveNote,
    ToggleBookmark,
    OpenBookmarkPicker,
    BookmarksLoaded(Vec<BookmarkRecord>),
    BookmarkNext,
    BookmarkPrev,
    ConfirmBookmark,
    DeleteBookmark,
    ConfirmAccept,
    RequestPreview,
    OpenReader,
    PreviewLoaded { path: String, preview: PreviewModel },
    ScrollPreview(i16),
    ScrollPreviewHorizontal(i16),
    ToggleLineNumbers,
    FocusExplorer,
    OpenExternal,
    Status(String),
    Quit,
}

} // verus!
