use lsz::cli::args::{parse_args, BookmarkCommand, CliCommand, CliError, NoteCommand};

#[test]
fn parse_default_to_plain() {
    let command = parse_args(Vec::new()).expect("parse default");
    match command {
        CliCommand::Plain { path } => assert_eq!(path, "."),
        other => panic!("unexpected command: {other:?}"),
    }
}

#[test]
fn parse_note_set_command() {
    let args = vec![
        "note".to_string(),
        "set".to_string(),
        "README.md".to_string(),
        "demo".to_string(),
    ];
    let command = parse_args(args).expect("parse note set");
    match command {
        CliCommand::Note(NoteCommand::SetNote { path, note }) => {
            assert_eq!(path, "README.md");
            assert_eq!(note, "demo");
        }
        other => panic!("unexpected command: {other:?}"),
    }
}

#[test]
fn parse_bookmark_add_command() {
    let args = vec![
        "bookmark".to_string(),
        "add".to_string(),
        "docs".to_string(),
        "/tmp".to_string(),
    ];
    let command = parse_args(args).expect("parse bookmark add");
    match command {
        CliCommand::Bookmark(BookmarkCommand::Add { name, path }) => {
            assert_eq!(name, "docs");
            assert_eq!(path, "/tmp");
        }
        other => panic!("unexpected command: {other:?}"),
    }
}

#[test]
fn unknown_flag_is_reported() {
    let r = parse_args(vec!["--bogus".to_string()]);
    match r {
        Err(CliError::UnknownFlag(flag)) => assert_eq!(flag, "--bogus"),
        other => panic!("unexpected result: {other:?}"),
    }
}
