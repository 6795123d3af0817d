//! Which action a key press or a mouse wheel turn stands for.
use vstd::prelude::*;
use crate::surfaces::tui::app::action::{Action, InputEdit};
use crate::surfaces::tui::app::reducer::{reduce, reduce_rel, ReduceResult};
use crate::surfaces::tui::app::state::{AppState, AppStateView, FocusPane, InputMode, OverlayView};
use crate::text::views;

verus! {

/// A key, as the terminal reports it.
#[derive(Debug, Clone, Copy, PartialEq, Eq, Structural)]
pub enum Key {
    Char(char),
    Up,
    Down,
    Left,
    Right,
    Enter,
    Esc,
    Backspace,
    Tab,
    BackTab,
    PageUp,
    PageDown,
    F(u8),
    Other,
}

/// A terminal event: a key press (with whether Control was held), a wheel turn, or anything
/// else.
#[derive(Debug, Clone, Copy, PartialEq, Eq, Structural)]
pub enum InputEvent {
    Key { key: Key, ctrl: bool },
    ScrollDown,
    ScrollUp,
    Other,
}

/// What an event asks for.
#[derive(Debug, Clone)]
pub enum InputOutcome {
    Dispatch(Action),
    LeaveCommand,
    Ignore,
}

pub open spec fn is_help_key(k: Key) -> bool {
    k == Key::Char('?') || k == Key::F(1)
}

pub open spec fn help_overlay_outcome(k: Key) -> InputOutcome {
    if k == Key::Esc || k == Key::Char('q') || is_help_key(k) {
        InputOutcome::Dispatch(Action::CloseOverlay)
    } else if k == Key::Tab || k == Key::Right {
        InputOutcome::Dispatch(Action::HelpNextCategory)
    } else if k == Key::BackTab || k == Key::Left {
        InputOutcome::Dispatch(Action::HelpPrevCategory)
    } else if k == Key::Down {
        InputOutcome::Dispatch(Action::HelpScroll(1))
    } else if k == Key::Up {
        InputOutcome::Dispatch(Action::HelpScroll(-1i16))
    } else if k == Key::PageDown {
        InputOutcome::Dispatch(Action::HelpScroll(8))
    } else if k == Key::PageUp {
        InputOutcome::Dispatch(Action::HelpScroll(-8i16))
    } else if k == Key::Backspace {
        InputOutcome::Dispatch(Action::HelpInput(InputEdit::Backspace))
    } else {
        match k {
            Key::Char(c) => InputOutcome::Dispatch(Action::HelpInput(InputEdit::Insert(c))),
            _ => InputOutcome::Ignore,
        }
    }
}

pub open spec fn note_editor_outcome(k: Key, ctrl: bool) -> InputOutcome {
    if k == Key::Esc {
        InputOutcome::Dispatch(Action::CloseOverlay)
    } else if k == Key::Enter {
        InputOutcome::Dispatch(Action::SaveNote)
    } else if is_help_key(k) {
        InputOutcome::Dispatch(Action::OpenHelp)
    } else if k == Key::Char('u') && ctrl {
        InputOutcome::Dispatch(Action::NoteClearLine)
    } else if k == Key::Backspace {
        InputOutcome::Dispatch(Action::NoteInput(InputEdit::Backspace))
    } else {
        match k {
            Key::Char(c) => InputOutcome::Dispatch(Action::NoteInput(InputEdit::Insert(c))),
            _ => InputOutcome::Ignore,
        }
    }
}

pub open spec fn bookmark_picker_outcome(k: Key) -> InputOutcome {
    if k == Key::Esc {
        InputOutcome::Dispatch(Action::CloseOverlay)
    } else if k == Key::Enter {
        InputOutcome::Dispatch(Action::ConfirmBookmark)
    } else if is_help_key(k) {
        InputOutcome::Dispatch(Action::OpenHelp)
    } else if k == Key::Char('j') || k == Key::Down {
        InputOutcome::Dispatch(Action::BookmarkNext)
    } else if k == Key::Char('k') || k == Key::Up {
        InputOutcome::Dispatch(Action::BookmarkPrev)
    } else if k == Key::Char('d') {
        InputOutcome::Dispatch(Action::DeleteBookmark)
    } else {
        InputOutcome::Ignore
    }
}

pub open spec fn confirm_outcome(k: Key) -> InputOutcome {
    if k == Key::Esc || k == Key::Char('n') {
        InputOutcome::Dispatch(Action::CloseOverlay)
    } else if k == Key::Enter || k == Key::Char('y') {
        InputOutcome::Dispatch(Action::ConfirmAccept)
    } else if is_help_key(k) {
        InputOutcome::Dispatch(Action::OpenHelp)
    } else {
        InputOutcome::Ignore
    }
}

pub open spec fn reader_outcome(k: Key) -> InputOutcome {
    if k == Key::Esc || k == Key::Char('q') || k == Key::Enter {
        InputOutcome::Dispatch(Action::CloseOverlay)
    } else if is_help_key(k) {
        InputOutcome::Dispatch(Action::OpenHelp)
    } else if k == Key::Char('n') {
        InputOutcome::Dispatch(Action::ToggleLineNumbers)
    } else if k == Key::Left || k == Key::Char('H') {
        InputOutcome::Dispatch(Action::ScrollPreviewHorizontal(-4i16))
    } else if k == Key::Right || k == Key::Char('L') {
        InputOutcome::Dispatch(Action::ScrollPreviewHorizontal(4))
    } else if k == Key::Char('j') || k == Key::Down {
        InputOutcome::Dispatch(Action::ScrollPreview(1))
    } else if k == Key::Char('k') || k == Key::Up {
        InputOutcome::Dispatch(Action::ScrollPreview(-1i16))
    } else if k == Key::PageDown {
        InputOutcome::Dispatch(Action::ScrollPreview(8))
    } else if k == Key::PageUp {
        InputOutcome::Dispatch(Action::ScrollPreview(-8i16))
    } else if k == Key::Char('o') {
        InputOutcome::Dispatch(Action::OpenExternal)
    } else {
        InputOutcome::Ignore
    }
}

pub open spec fn search_outcome(k: Key) -> InputOutcome {
    if k == Key::Esc {
        InputOutcome::Dispatch(Action::ClearSearch)
    } else if k == Key::Enter {
        InputOutcome::Dispatch(Action::SubmitSearch)
    } else if is_help_key(k) {
        InputOutcome::Dispatch(Action::OpenHelp)
    } else if k == Key::Backspace {
        InputOutcome::Dispatch(Action::SearchInput(InputEdit::Backspace))
    } else {
        match k {
            Key::Char(c) => InputOutcome::Dispatch(Action::SearchInput(InputEdit::Insert(c))),
            _ => InputOutcome::Ignore,
        }
    }
}

pub open spec fn command_outcome(k: Key) -> InputOutcome {
    if k == Key::Esc {
        InputOutcome::LeaveCommand
    } else if is_help_key(k) {
        InputOutcome::Dispatch(Action::OpenHelp)
    } else if k == Key::Enter {
        InputOutcome::Dispatch(Action::SubmitCommand)
    } else if k == Key::Backspace {
        InputOutcome::Dispatch(Action::CommandInput(InputEdit::Backspace))
    } else {
        match k {
            Key::Char(c) => InputOutcome::Dispatch(Action::CommandInput(InputEdit::Insert(c))),
            _ => InputOutcome::Ignore,
        }
    }
}

/// The browsing keys: moving, opening, searching, the overlays and the toggles.
pub open spec fn browse_outcome(s: AppStateView, k: Key) -> InputOutcome {
    let explorer = s.focus == FocusPane::Explorer;
    if k == Key::Char('q') {
        InputOutcome::Dispatch(Action::Quit)
    } else if k == Key::Char('j') || k == Key::Down {
        InputOutcome::Dispatch(if explorer { Action::MoveDown } else { Action::ScrollPreview(1) })
    } else if k == Key::Char('k') || k == Key::Up {
        InputOutcome::Dispatch(if explorer { Action::MoveUp } else { Action::ScrollPreview(-1i16) })
    } else if k == Key::Enter {
        InputOutcome::Dispatch(if explorer { Action::OpenSelected } else { Action::OpenReader })
    } else if k == Key::Backspace {
        InputOutcome::Dispatch(Action::GoParent)
    } else if k == Key::Char('h') || k == Key::Left {
        InputOutcome::Dispatch(if explorer { Action::GoParent } else { Action::FocusExplorer })
    } else if k == Key::Esc && s.search_input.len() > 0 {
        InputOutcome::Dispatch(Action::ClearSearch)
    } else if k == Key::Char('/') {
        InputOutcome::Dispatch(Action::OpenSearch)
    } else if k == Key::Char(':') {
        InputOutcome::Dispatch(Action::OpenCommand)
    } else if k == Key::Tab {
        InputOutcome::Dispatch(Action::FocusNext)
    } else if is_help_key(k) {
        InputOutcome::Dispatch(Action::OpenHelp)
    } else if k == Key::Char('m') {
        InputOutcome::Dispatch(Action::OpenNoteEditor)
    } else if k == Key::Char('p') {
        InputOutcome::Dispatch(Action::ToggleBookmark)
    } else if k == Key::Char('B') {
        InputOutcome::Dispatch(Action::OpenBookmarkPicker)
    } else if k == Key::Char('o') {
        InputOutcome::Dispatch(Action::OpenExternal)
    } else if k == Key::Char('r') {
        InputOutcome::Dispatch(Action::Refresh)
    } else if k == Key::Char('.') {
        InputOutcome::Dispatch(Action::ToggleHidden)
    } else if k == Key::Char('n') && !explorer {
        InputOutcome::Dispatch(Action::ToggleLineNumbers)
    } else if k == Key::Char('H') && s.focus == FocusPane::Preview {
        InputOutcome::Dispatch(Action::ScrollPreviewHorizontal(-4i16))
    } else if k == Key::Char('L') && s.focus == FocusPane::Preview {
        InputOutcome::Dispatch(Action::ScrollPreviewHorizontal(4))
    } else if k == Key::PageDown {
        InputOutcome::Dispatch(Action::ScrollPreview(10))
    } else if k == Key::PageUp {
        InputOutcome::Dispatch(Action::ScrollPreview(-10i16))
    } else {
        InputOutcome::Ignore
    }
}

/// What an event asks for in a state: an open overlay takes the keys first, then the
/// search or command line, then the browsing keys; the wheel scrolls the preview when
/// browsing or reading.
pub open spec fn input_outcome_spec(s: AppStateView, e: InputEvent) -> InputOutcome {
    match s.overlay {
        OverlayView::Help { .. } => match e {
            InputEvent::Key { key, ctrl } => help_overlay_outcome(key),
            _ => InputOutcome::Ignore,
        },
        OverlayView::NoteEditor { .. } => match e {
            InputEvent::Key { key, ctrl } => note_editor_outcome(key, ctrl),
            _ => InputOutcome::Ignore,
        },
        OverlayView::BookmarkPicker { .. } => match e {
            InputEvent::Key { key, ctrl } => bookmark_picker_outcome(key),
            _ => InputOutcome::Ignore,
        },
        OverlayView::Confirm { .. } => match e {
            InputEvent::Key { key, ctrl } => confirm_outcome(key),
            _ => InputOutcome::Ignore,
        },
        OverlayView::Reader => match e {
            InputEvent::Key { key, ctrl } => reader_outcome(key),
            InputEvent::ScrollDown => InputOutcome::Dispatch(Action::ScrollPreview(3)),
            InputEvent::ScrollUp => InputOutcome::Dispatch(Action::ScrollPreview(-3i16)),
            InputEvent::Other => InputOutcome::Ignore,
        },
        OverlayView::Closed => if s.input_mode == InputMode::Search {
            match e {
                InputEvent::Key { key, ctrl } => search_outcome(key),
                _ => InputOutcome::Ignore,
            }
        } else if s.input_mode == InputMode::Command {
            match e {
                InputEvent::Key { key, ctrl } => command_outcome(key),
                _ => InputOutcome::Ignore,
            }
        } else {
            match e {
                InputEvent::Key { key, ctrl } => browse_outcome(s, key),
                InputEvent::ScrollDown => InputOutcome::Dispatch(Action::ScrollPreview(3)),
                InputEvent::ScrollUp => InputOutcome::Dispatch(Action::ScrollPreview(-3i16)),
                InputEvent::Other => InputOutcome::Ignore,
            }
        },
    }
}

fn is_help(k: Key) -> (r: bool)
    ensures
        r == is_help_key(k),
{
    k == Key::Char('?') || k == Key::F(1)
}

fn help_overlay_outcome_of(k: Key) -> (r: InputOutcome)
    ensures
        r == help_overlay_outcome(k),
{
    if k == Key::Esc || k == Key::Char('q') || is_help(k) {
        InputOutcome::Dispatch(Action::CloseOverlay)
    } else if k == Key::Tab || k == Key::Right {
        InputOutcome::Dispatch(Action::HelpNextCategory)
    } else if k == Key::BackTab || k == Key::Left {
        InputOutcome::Dispatch(Action::HelpPrevCategory)
    } else if k == Key::Down {
        InputOutcome::Dispatch(Action::HelpScroll(1))
    } else if k == Key::Up {
        InputOutcome::Dispatch(Action::HelpScroll(-1i16))
    } else if k == Key::PageDown {
        InputOutcome::Dispatch(Action::HelpScroll(8))
    } else if k == Key::PageUp {
        InputOutcome::Dispatch(Action::HelpScroll(-8i16))
    } else if k == Key::Backspace {
        InputOutcome::Dispatch(Action::HelpInput(InputEdit::Backspace))
    } else {
        match k {
            Key::Char(c) => InputOutcome::Dispatch(Action::HelpInput(InputEdit::Insert(c))),
            _ => InputOutcome::Ignore,
        }
    }
}

fn note_editor_outcome_of(k: Key, ctrl: bool) -> (r: InputOutcome)
    ensures
        r == note_editor_outcome(k, ctrl),
{
    if k == Key::Esc {
        InputOutcome::Dispatch(Action::CloseOverlay)
    } else if k == Key::Enter {
        InputOutcome::Dispatch(Action::SaveNote)
    } else if is_help(k) {
        InputOutcome::Dispatch(Action::OpenHelp)
    } else if k == Key::Char('u') && ctrl {
        InputOutcome::Dispatch(Action::NoteClearLine)
    } else if k == Key::Backspace {
        InputOutcome::Dispatch(Action::NoteInput(InputEdit::Backspace))
    } else {
        match k {
            Key::Char(c) => InputOutcome::Dispatch(Action::NoteInput(InputEdit::Insert(c))),
            _ => InputOutcome::Ignore,
        }
    }
}

fn bookmark_picker_outcome_of(k: Key) -> (r: InputOutcome)
    ensures
        r == bookmark_picker_outcome(k),
{
    if k == Key::Esc {
        InputOutcome::Dispatch(Action::CloseOverlay)
    } else if k == Key::Enter {
        InputOutcome::Dispatch(Action::ConfirmBookmark)
    } else if is_help(k) {
        InputOutcome::Dispatch(Action::OpenHelp)
    } else if k == Key::Char('j') || k == Key::Down {
        InputOutcome::Dispatch(Action::BookmarkNext)
    } else if k == Key::Char('k') || k == Key::Up {
        InputOutcome::Dispatch(Action::BookmarkPrev)
    } else if k == Key::Char('d') {
        InputOutcome::Dispatch(Action::DeleteBookmark)
    } else {
        InputOutcome::Ignore
    }
}

fn confirm_outcome_of(k: Key) -> (r: InputOutcome)
    ensures
        r == confirm_outcome(k),
{
    if k == Key::Esc || k == Key::Char('n') {
        InputOutcome::Dispatch(Action::CloseOverlay)
    } else if k == Key::Enter || k == Key::Char('y') {
        InputOutcome::Dispatch(Action::ConfirmAccept)
    } else if is_help(k) {
        InputOutcome::Dispatch(Action::OpenHelp)
    } else {
        InputOutcome::Ignore
    }
}

fn reader_outcome_of(k: Key) -> (r: InputOutcome)
    ensures
        r == reader_outcome(k),
{
    if k == Key::Esc || k == Key::Char('q') || k == Key::Enter {
        InputOutcome::Dispatch(Action::CloseOverlay)
    } else if is_help(k) {
        InputOutcome::Dispatch(Action::OpenHelp)
    } else if k == Key::Char('n') {
        InputOutcome::Dispatch(Action::ToggleLineNumbers)
    } else if k == Key::Left || k == Key::Char('H') {
        InputOutcome::Dispatch(Action::ScrollPreviewHorizontal(-4i16))
    } else if k == Key::Right || k == Key::Char('L') {
        InputOutcome::Dispatch(Action::ScrollPreviewHorizontal(4))
    } else if k == Key::Char('j') || k == Key::Down {
        InputOutcome::Dispatch(Action::ScrollPreview(1))
    } else if k == Key::Char('k') || k == Key::Up {
        InputOutcome::Dispatch(Action::ScrollPreview(-1i16))
    } else if k == Key::PageDown {
        InputOutcome::Dispatch(Action::ScrollPreview(8))
    } else if k == Key::PageUp {
        InputOutcome::Dispatch(Action::ScrollPreview(-8i16))
    } else if k == Key::Char('o') {
        InputOutcome::Dispatch(Action::OpenExternal)
    } else {
        InputOutcome::Ignore
    }
}

fn search_outcome_of(k: Key) -> (r: InputOutcome)
    ensures
        r == search_outcome(k),
{
    if k == Key::Esc {
        InputOutcome::Dispatch(Action::ClearSearch)
    } else if k == Key::Enter {
        InputOutcome::Dispatch(Action::SubmitSearch)
    } else if is_help(k) {
        InputOutcome::Dispatch(Action::OpenHelp)
    } else if k == Key::Backspace {
        InputOutcome::Dispatch(Action::SearchInput(InputEdit::Backspace))
    } else {
        match k {
            Key::Char(c) => InputOutcome::Dispatch(Action::SearchInput(InputEdit::Insert(c))),
            _ => InputOutcome::Ignore,
        }
    }
}

fn command_outcome_of(k: Key) -> (r: InputOutcome)
    ensures
        r == command_outcome(k),
{
    if k == Key::Esc {
        InputOutcome::LeaveCommand
    } else if is_help(k) {
        InputOutcome::Dispatch(Action::OpenHelp)
    } else if k == Key::Enter {
        InputOutcome::Dispatch(Action::SubmitCommand)
    } else if k == Key::Backspace {
        InputOutcome::Dispatch(Action::CommandInput(InputEdit::Backspace))
    } else {
        match k {
            Key::Char(c) => InputOutcome::Dispatch(Action::CommandInput(InputEdit::Insert(c))),
            _ => InputOutcome::Ignore,
        }
    }
}

fn browse_outcome_of(s: &AppState, k: Key) -> (r: InputOutcome)
    ensures
        r == browse_outcome(s@, k),
{
    let explorer = s.focus == FocusPane::Explorer;
    let searching = crate::text::chars_of(s.search_input.as_str()).len() > 0;
    if k == Key::Char('q') {
        InputOutcome::Dispatch(Action::Quit)
    } else if k == Key::Char('j') || k == Key::Down {
        InputOutcome::Dispatch(if explorer { Action::MoveDown } else { Action::ScrollPreview(1) })
    } else if k == Key::Char('k') || k == Key::Up {
        InputOutcome::Dispatch(if explorer { Action::MoveUp } else { Action::ScrollPreview(-1i16) })
    } else if k == Key::Enter {
        InputOutcome::Dispatch(if explorer { Action::OpenSelected } else { Action::OpenReader })
    } else if k == Key::Backspace {
        InputOutcome::Dispatch(Action::GoParent)
    } else if k == Key::Char('h') || k == Key::Left {
        InputOutcome::Dispatch(if explorer { Action::GoParent } else { Action::FocusExplorer })
    } else if k == Key::Esc && searching {
        InputOutcome::Dispatch(Action::ClearSearch)
    } else if k == Key::Char('/') {
        InputOutcome::Dispatch(Action::OpenSearch)
    } else if k == Key::Char(':') {
        InputOutcome::Dispatch(Action::OpenCommand)
    } else if k == Key::Tab {
        InputOutcome::Dispatch(Action::FocusNext)
    } else if is_help(k) {
        InputOutcome::Dispatch(Action::OpenHelp)
    } else if k == Key::Char('m') {
        InputOutcome::Dispatch(Action::OpenNoteEditor)
    } else if k == Key::Char('p') {
        InputOutcome::Dispatch(Action::ToggleBookmark)
    } else if k == Key::Char('B') {
        InputOutcome::Dispatch(Action::OpenBookmarkPicker)
    } else if k == Key::Char('o') {
        InputOutcome::Dispatch(Action::OpenExternal)
    } else if k == Key::Char('r') {
        InputOutcome::Dispatch(Action::Refresh)
    } else if k == Key::Char('.') {
        InputOutcome::Dispatch(Action::ToggleHidden)
    } else if k == Key::Char('n') && !explorer {
        InputOutcome::Dispatch(Action::ToggleLineNumbers)
    } else if k == Key::Char('H') && s.focus == FocusPane::Preview {
        InputOutcome::Dispatch(Action::ScrollPreviewHorizontal(-4i16))
    } else if k == Key::Char('L') && s.focus == FocusPane::Preview {
        InputOutcome::Dispatch(Action::ScrollPreviewHorizontal(4))
    } else if k == Key::PageDown {
        InputOutcome::Dispatch(Action::ScrollPreview(10))
    } else if k == Key::PageUp {
        InputOutcome::Dispatch(Action::ScrollPreview(-10i16))
    } else {
        InputOutcome::Ignore
    }
}

/// What `event` asks for in `state`.
pub fn input_outcome(state: &AppState, event: InputEvent) -> (r: InputOutcome)
    ensures
        r == input_outcome_spec(state@, event),
{
    match &state.overlay {
        crate::surfaces::tui::app::state::OverlayState::Help { .. } => match event {
            InputEvent::Key { key, ctrl } => help_overlay_outcome_of(key),
            _ => InputOutcome::Ignore,
        },
        crate::surfaces::tui::app::state::OverlayState::NoteEditor { .. } => match event {
            InputEvent::Key { key, ctrl } => note_editor_outcome_of(key, ctrl),
            _ => InputOutcome::Ignore,
        },
        crate::surfaces::tui::app::state::OverlayState::BookmarkPicker { .. } => match event {
            InputEvent::Key { key, ctrl } => bookmark_picker_outcome_of(key),
            _ => InputOutcome::Ignore,
        },
        crate::surfaces::tui::app::state::OverlayState::Confirm { .. } => match event {
            InputEvent::Key { key, ctrl } => confirm_outcome_of(key),
            _ => InputOutcome::Ignore,
        },
        crate::surfaces::tui::app::state::OverlayState::Reader => match event {
            InputEvent::Key { key, ctrl } => reader_outcome_of(key),
            InputEvent::ScrollDown => InputOutcome::Dispatch(Action::ScrollPreview(3)),
            InputEvent::ScrollUp => InputOutcome::Dispatch(Action::ScrollPreview(-3i16)),
            InputEvent::Other => InputOutcome::Ignore,
        },
        crate::surfaces::tui::app::state::OverlayState::Closed => if state.input_mode == InputMode::Search {
            match event {
                InputEvent::Key { key, ctrl } => search_outcome_of(key),
                _ => InputOutcome::Ignore,
            }
        } else if state.input_mode == InputMode::Command {
            match event {
                InputEvent::Key { key, ctrl } => command_outcome_of(key),
                _ => InputOutcome::Ignore,
            }
        } else {
            match event {
                InputEvent::Key { key, ctrl } => browse_outcome_of(state, key),
                InputEvent::ScrollDown => InputOutcome::Dispatch(Action::ScrollPreview(3)),
                InputEvent::ScrollUp => InputOutcome::Dispatch(Action::ScrollPreview(-3i16)),
                InputEvent::Other => InputOutcome::Ignore,
            }
        },
    }
}

/// The state after leaving the command line: back to browsing, the command text cleared.
pub open spec fn left_command(s: AppStateView) -> AppStateView {
    AppStateView { input_mode: InputMode::Normal, command_input: Seq::empty(), ..s }
}

/// Handles a terminal event: the action it stands for is reduced; leaving the command line
/// clears it; other events change nothing.
pub fn handle_input(state: &mut AppState, event: InputEvent) -> (r: ReduceResult)
    ensures
        match input_outcome_spec(old(state)@, event) {
            InputOutcome::Dispatch(a) => reduce_rel(old(state)@, a, final(state)@, views(r.effects@), r.should_quit),
            InputOutcome::LeaveCommand => final(state)@ == left_command(old(state)@) && r.effects@.len() == 0 && !r.should_quit,
            InputOutcome::Ignore => final(state)@ == old(state)@ && r.effects@.len() == 0 && !r.should_quit,
        },
{
    match input_outcome(state, event) {
        InputOutcome::Dispatch(a) => reduce(state, a),
        InputOutcome::LeaveCommand => {
            state.input_mode = InputMode::Normal;
            state.command_input = String::new();
            ReduceResult::none()
        },
        InputOutcome::Ignore => ReduceResult::none(),
    }
}

} // verus!
