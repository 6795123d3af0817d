use lsz::surfaces::tui::app::action::{Action, InputEdit};
use lsz::surfaces::tui::app::input::{handle_input, input_outcome, InputEvent, InputOutcome, Key};
use lsz::surfaces::tui::app::state::{AppState, FocusPane, InputMode};

fn key(k: Key) -> InputEvent {
    InputEvent::Key { key: k, ctrl: false }
}

#[test]
fn browsing_keys_depend_on_focus() {
    let mut state = AppState::new("/tmp".to_string(), None);
    assert!(matches!(input_outcome(&state, key(Key::Char('j'))), InputOutcome::Dispatch(Action::MoveDown)));
    assert!(matches!(input_outcome(&state, key(Key::Char('q'))), InputOutcome::Dispatch(Action::Quit)));
    assert!(matches!(input_outcome(&state, key(Key::Char('n'))), InputOutcome::Ignore));
    state.focus = FocusPane::Preview;
    assert!(matches!(input_outcome(&state, key(Key::Char('j'))), InputOutcome::Dispatch(Action::ScrollPreview(1))));
    assert!(matches!(input_outcome(&state, key(Key::Char('H'))), InputOutcome::Dispatch(Action::ScrollPreviewHorizontal(-4))));
    assert!(matches!(input_outcome(&state, InputEvent::ScrollUp), InputOutcome::Dispatch(Action::ScrollPreview(-3))));
}

#[test]
fn typing_goes_to_the_search_line() {
    let mut state = AppState::new("/tmp".to_string(), None);
    state.input_mode = InputMode::Search;
    assert!(matches!(
        input_outcome(&state, key(Key::Char('x'))),
        InputOutcome::Dispatch(Action::SearchInput(InputEdit::Insert('x')))
    ));
    assert!(matches!(input_outcome(&state, key(Key::Esc)), InputOutcome::Dispatch(Action::ClearSearch)));
}

#[test]
fn escape_leaves_the_command_line() {
    let mut state = AppState::new("/tmp".to_string(), None);
    state.input_mode = InputMode::Command;
    state.command_input = "sor".to_string();
    let r = handle_input(&mut state, key(Key::Esc));
    assert!(r.effects.is_empty());
    assert!(!r.should_quit);
    assert_eq!(state.input_mode, InputMode::Normal);
    assert!(state.command_input.is_empty());
}

#[test]
fn quitting_through_input() {
    let mut state = AppState::new("/tmp".to_string(), None);
    let r = handle_input(&mut state, key(Key::Char('q')));
    assert!(r.should_quit);
    let r = handle_input(&mut state, InputEvent::Other);
    assert!(!r.should_quit);
}
