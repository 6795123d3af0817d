//! Command-line argument parsing.
use vstd::prelude::*;
use crate::text::{str_eq, str_starts_with, starts_with};

verus! {

/// What the program is asked to do.
#[derive(Debug, Clone)]
pub enum CliCommand {
    Plain { path: String },
    Inspect { path: String },
    Tui { path: String },
    Note(NoteCommand),
    Bookmark(BookmarkCommand),
    Help,
    HelpKeys,
}

#[derive(Debug, Clone)]
pub enum NoteCommand {
    SetNote { path: String, note: String },
    Delete { path: String },
    Gc,
}

#[derive(Debug, Clone)]
pub enum BookmarkCommand {
    Add { name: String, path: String },
    Delete { name: String },
    List,
    Jump { name: String },
}

/// Why the arguments were refused.
#[derive(Debug, Clone)]
pub enum CliError {
    MissingNote,
    MissingPath,
    MissingBookmarkName,
    UnknownNoteCommand,
    UnknownFlag(String),
}

pub enum NoteCommandView {
    SetNote { path: Seq<char>, note: Seq<char> },
    Delete { path: Seq<char> },
    Gc,
}

pub enum BookmarkCommandView {
    Add { name: Seq<char>, path: Seq<char> },
    Delete { name: Seq<char> },
    List,
    Jump { name: Seq<char> },
}

pub enum CliCommandView {
    Plain { path: Seq<char> },
    Inspect { path: Seq<char> },
    Tui { path: Seq<char> },
    Note(NoteCommandView),
    Bookmark(BookmarkCommandView),
    Help,
    HelpKeys,
}

pub enum CliErrorView {
    MissingNote,
    MissingPath,
    MissingBookmarkName,
    UnknownNoteCommand,
    UnknownFlag(Seq<char>),
}

impl View for NoteCommand {
    type V = NoteCommandView;

    open spec fn view(&self) -> NoteCommandView {
        match self {
            NoteCommand::SetNote { path, note } => NoteCommandView::SetNote { path: path@, note: note@ },
            NoteCommand::Delete { path } => NoteCommandView::Delete { path: path@ },
            NoteCommand::Gc => NoteCommandView::Gc,
        }
    }
}

impl View for BookmarkCommand {
    type V = BookmarkCommandView;

    open spec fn view(&self) -> BookmarkCommandView {
        match self {
            BookmarkCommand::Add { name, path } => BookmarkCommandView::Add {
                name: name@,
                path: path@,
            },
            BookmarkCommand::Delete { name } => BookmarkCommandView::Delete { name: name@ },
            BookmarkCommand::List => BookmarkCommandView::List,
            BookmarkCommand::Jump { name } => BookmarkCommandView::Jump { name: name@ },
        }
    }
}

impl View for CliCommand {
    type V = CliCommandView;

    open spec fn view(&self) -> CliCommandView {
        match self {
            CliCommand::Plain { path } => CliCommandView::Plain { path: path@ },
            CliCommand::Inspect { path } => CliCommandView::Inspect { path: path@ },
            CliCommand::Tui { path } => CliCommandView::Tui { path: path@ },
            CliCommand::Note(n) => CliCommandView::Note(n@),
            CliCommand::Bookmark(b) => CliCommandView::Bookmark(b@),
            CliCommand::Help => CliCommandView::Help,
            CliCommand::HelpKeys => CliCommandView::HelpKeys,
        }
    }
}

impl View for CliError {
    type V = CliErrorView;

    open spec fn view(&self) -> CliErrorView {
        match self {
            CliError::MissingNote => CliErrorView::MissingNote,
            CliError::MissingPath => CliErrorView::MissingPath,
            CliError::MissingBookmarkName => CliErrorView::MissingBookmarkName,
            CliError::UnknownNoteCommand => CliErrorView::UnknownNoteCommand,
            CliError::UnknownFlag(f) => CliErrorView::UnknownFlag(f@),
        }
    }
}

pub open spec fn result_view(r: Result<CliCommand, CliError>) -> Result<CliCommandView, CliErrorView> {
    match r {
        Ok(c) => Ok(c@),
        Err(e) => Err(e@),
    }
}

/// The argument at `i`, if there is one.
pub open spec fn arg(args: Seq<Seq<char>>, i: int) -> Option<Seq<char>> {
    if 0 <= i < args.len() {
        Some(args[i])
    } else {
        None
    }
}

/// The argument at `i`, or `"."` when it is missing.
pub open spec fn path_or_dot(args: Seq<Seq<char>>, i: int) -> Seq<char> {
    match arg(args, i) {
        Some(p) => p,
        None => "."@,
    }
}

/// The meaning of `note ...` when `args[0]` is the word after `note`.
pub open spec fn parse_note_spec(args: Seq<Seq<char>>) -> Result<CliCommandView, CliErrorView> {
    match arg(args, 0) {
        Some(w) => if w == "set"@ {
            match (arg(args, 1), arg(args, 2)) {
                (Some(path), Some(note)) => Ok(
                    CliCommandView::Note(NoteCommandView::SetNote { path, note }),
                ),
                (None, _) => Err(CliErrorView::MissingPath),
                (Some(_), None) => Err(CliErrorView::MissingNote),
            }
        } else if w == "del"@ || w == "delete"@ || w == "rm"@ {
            match arg(args, 1) {
                Some(path) => Ok(CliCommandView::Note(NoteCommandView::Delete { path })),
                None => Err(CliErrorView::MissingPath),
            }
        } else if w == "gc"@ {
            Ok(CliCommandView::Note(NoteCommandView::Gc))
        } else {
            Err(CliErrorView::UnknownNoteCommand)
        },
        None => Err(CliErrorView::UnknownNoteCommand),
    }
}

/// The meaning of `bookmark ...` when `args[0]` is the word after `bookmark`.
pub open spec fn parse_bookmark_spec(args: Seq<Seq<char>>) -> Result<CliCommandView, CliErrorView> {
    match arg(args, 0) {
        None => Ok(CliCommandView::Bookmark(BookmarkCommandView::List)),
        Some(w) => if w == "add"@ {
            match arg(args, 1) {
                Some(name) => Ok(
                    CliCommandView::Bookmark(
                        BookmarkCommandView::Add { name, path: path_or_dot(args, 2) },
                    ),
                ),
                None => Err(CliErrorView::MissingBookmarkName),
            }
        } else if w == "list"@ || w == "ls"@ {
            Ok(CliCommandView::Bookmark(BookmarkCommandView::List))
        } else if w == "del"@ || w == "delete"@ || w == "rm"@ {
            match arg(args, 1) {
                Some(name) => Ok(CliCommandView::Bookmark(BookmarkCommandView::Delete { name })),
                None => Err(CliErrorView::MissingBookmarkName),
            }
        } else {
            Ok(CliCommandView::Bookmark(BookmarkCommandView::Jump { name: w }))
        },
    }
}

/// The meaning of the whole argument list (program name excluded).
pub open spec fn parse_args_spec(args: Seq<Seq<char>>) -> Result<CliCommandView, CliErrorView> {
    match arg(args, 0) {
        None => Ok(CliCommandView::Plain { path: "."@ }),
        Some(first) => if first == "-h"@ || first == "--help"@ {
            Ok(CliCommandView::Help)
        } else if first == "--help-keys"@ {
            Ok(CliCommandView::HelpKeys)
        } else if first == "--plain"@ {
            Ok(CliCommandView::Plain { path: path_or_dot(args, 1) })
        } else if first == "-i"@ {
            Ok(CliCommandView::Inspect { path: path_or_dot(args, 1) })
        } else if first == "-l"@ || first == "--list"@ {
            Ok(CliCommandView::Tui { path: path_or_dot(args, 1) })
        } else if first == "-s"@ {
            match (arg(args, 1), arg(args, 2)) {
                (Some(note), Some(path)) => Ok(
                    CliCommandView::Note(NoteCommandView::SetNote { path, note }),
                ),
                (None, _) => Err(CliErrorView::MissingNote),
                (Some(_), None) => Err(CliErrorView::MissingPath),
            }
        } else if first == "-d"@ {
            match arg(args, 1) {
                Some(path) => Ok(CliCommandView::Note(NoteCommandView::Delete { path })),
                None => Err(CliErrorView::MissingPath),
            }
        } else if first == "-gc"@ {
            Ok(CliCommandView::Note(NoteCommandView::Gc))
        } else if first == "-b"@ || first == "--bookmark"@ || first == "bookmark"@ {
            parse_bookmark_spec(args.skip(1))
        } else if first == "note"@ {
            parse_note_spec(args.skip(1))
        } else if starts_with(first, "-"@) {
            Err(CliErrorView::UnknownFlag(first))
        } else {
            Ok(CliCommandView::Plain { path: first })
        },
    }
}

fn arg_at(args: &Vec<String>, i: usize) -> (r: Option<String>)
    ensures
        r matches Some(s) ==> i < args.len() && s@ == args@[i as int]@,
        r is None <==> i >= args.len(),
{
    if i < args.len() {
        Some(args[i].clone())
    } else {
        None
    }
}

fn path_at(args: &Vec<String>, i: usize) -> (r: String)
    ensures
        r@ == path_or_dot(crate::text::views(args@), i as int),
{
    match arg_at(args, i) {
        Some(s) => s,
        None => String::from_str("."),
    }
}

fn is(word: &String, literal: &str) -> (r: bool)
    ensures
        r == (word@ == literal@),
{
    str_eq(word.as_str(), literal)
}

/// Parses the arguments that follow `note`, starting at `start`.
fn parse_note(args: &Vec<String>, start: usize) -> (r: Result<CliCommand, CliError>)
    requires
        start <= args.len(),
    ensures
        result_view(r) == parse_note_spec(crate::text::views(args@).skip(start as int)),
{
    let ghost a = crate::text::views(args@).skip(start as int);
    match arg_at(args, start) {
        None => Err(CliError::UnknownNoteCommand),
        Some(w) => {
            if is(&w, "set") {
                let path = match arg_at(args, start + 1) {
                    Some(p) => p,
                    None => return Err(CliError::MissingPath),
                };
                let note = match arg_at(args, start + 2) {
                    Some(n) => n,
                    None => return Err(CliError::MissingNote),
                };
                Ok(CliCommand::Note(NoteCommand::SetNote { path, note }))
            } else if is(&w, "del") || is(&w, "delete") || is(&w, "rm") {
                match arg_at(args, start + 1) {
                    Some(path) => Ok(CliCommand::Note(NoteCommand::Delete { path })),
                    None => Err(CliError::MissingPath),
                }
            } else if is(&w, "gc") {
                Ok(CliCommand::Note(NoteCommand::Gc))
            } else {
                Err(CliError::UnknownNoteCommand)
            }
        },
    }
}

/// Parses the arguments that follow `bookmark`, starting at `start`.
fn parse_bookmark(args: &Vec<String>, start: usize) -> (r: Result<CliCommand, CliError>)
    requires
        start <= args.len(),
    ensures
        result_view(r) == parse_bookmark_spec(crate::text::views(args@).skip(start as int)),
{
    let ghost a = crate::text::views(args@).skip(start as int);
    match arg_at(args, start) {
        None => Ok(CliCommand::Bookmark(BookmarkCommand::List)),
        Some(w) => {
            if is(&w, "add") {
                match arg_at(args, start + 1) {
                    Some(name) => {
                        let path = path_at(args, start + 2);
                        Ok(CliCommand::Bookmark(BookmarkCommand::Add { name, path }))
                    },
                    None => Err(CliError::MissingBookmarkName),
                }
            } else if is(&w, "list") || is(&w, "ls") {
                Ok(CliCommand::Bookmark(BookmarkCommand::List))
            } else if is(&w, "del") || is(&w, "delete") || is(&w, "rm") {
                match arg_at(args, start + 1) {
                    Some(name) => Ok(CliCommand::Bookmark(BookmarkCommand::Delete { name })),
                    None => Err(CliError::MissingBookmarkName),
                }
            } else {
                Ok(CliCommand::Bookmark(BookmarkCommand::Jump { name: w }))
            }
        },
    }
}

/// Parses the program's arguments (without the program name).
pub fn parse_args(args: Vec<String>) -> (r: Result<CliCommand, CliError>)
    ensures
        result_view(r) == parse_args_spec(crate::text::views(args@)),
{
    let ghost a = crate::text::views(args@);
    let first = match arg_at(&args, 0) {
        Some(f) => f,
        None => return Ok(CliCommand::Plain { path: String::from_str(".") }),
    };
    if is(&first, "-h") || is(&first, "--help") {
        Ok(CliCommand::Help)
    } else if is(&first, "--help-keys") {
        Ok(CliCommand::HelpKeys)
    } else if is(&first, "--plain") {
        Ok(CliCommand::Plain { path: path_at(&args, 1) })
    } else if is(&first, "-i") {
        Ok(CliCommand::Inspect { path: path_at(&args, 1) })
    } else if is(&first, "-l") || is(&first, "--list") {
        Ok(CliCommand::Tui { path: path_at(&args, 1) })
    } else if is(&first, "-s") {
        let note = match arg_at(&args, 1) {
            Some(n) => n,
            None => return Err(CliError::MissingNote),
        };
        let path = match arg_at(&args, 2) {
            Some(p) => p,
            None => return Err(CliError::MissingPath),
        };
        Ok(CliCommand::Note(NoteCommand::SetNote { path, note }))
    } else if is(&first, "-d") {
        match arg_at(&args, 1) {
            Some(path) => Ok(CliCommand::Note(NoteCommand::Delete { path })),
            None => Err(CliError::MissingPath),
        }
    } else if is(&first, "-gc") {
        Ok(CliCommand::Note(NoteCommand::Gc))
    } else if is(&first, "-b") || is(&first, "--bookmark") || is(&first, "bookmark") {
        parse_bookmark(&args, 1)
    } else if is(&first, "note") {
        parse_note(&args, 1)
    } else if str_starts_with(first.as_str(), "-") {
        Err(CliError::UnknownFlag(first))
    } else {
        Ok(CliCommand::Plain { path: first })
    }
}

impl CliError {
    /// The message shown to the user.
    pub fn message(&self) -> (r: String)
        ensures
            r@ == error_message(self@),
    {
        match self {
            CliError::MissingNote => String::from_str("missing note"),
            CliError::MissingPath => String::from_str("missing path"),
            CliError::MissingBookmarkName => String::from_str("missing bookmark name"),
            CliError::UnknownNoteCommand => String::from_str("unknown note command"),
            CliError::UnknownFlag(f) => {
                let mut m = String::from_str("unknown flag: ");
                crate::text::append_str(&mut m, f.as_str());
                m
            },
        }
    }
}

pub open spec fn error_message(e: CliErrorView) -> Seq<char> {
    match e {
        CliErrorView::MissingNote => "missing note"@,
        CliErrorView::MissingPath => "missing path"@,
        CliErrorView::MissingBookmarkName => "missing bookmark name"@,
        CliErrorView::UnknownNoteCommand => "unknown note command"@,
        CliErrorView::UnknownFlag(f) => "unknown flag: "@ + f,
    }
}


proof fn lemma_flag_literals()
    ensures
        "-s"@ != "-h"@, "-s"@ != "--help"@, "-s"@ != "--help-keys"@, "-s"@ != "--plain"@,
        "-s"@ != "-i"@, "-s"@ != "-l"@, "-s"@ != "--list"@,
        "-d"@ != "-h"@, "-d"@ != "--help"@, "-d"@ != "--help-keys"@, "-d"@ != "--plain"@,
        "-d"@ != "-i"@, "-d"@ != "-l"@, "-d"@ != "--list"@, "-d"@ != "-s"@,
        "-b"@ != "-h"@, "-b"@ != "--help"@, "-b"@ != "--help-keys"@, "-b"@ != "--plain"@,
        "-b"@ != "-i"@, "-b"@ != "-l"@, "-b"@ != "--list"@, "-b"@ != "-s"@, "-b"@ != "-d"@, "-b"@ != "-gc"@,
        "note"@ != "-h"@, "note"@ != "--help"@, "note"@ != "--help-keys"@, "note"@ != "--plain"@,
        "note"@ != "-i"@, "note"@ != "-l"@, "note"@ != "--list"@, "note"@ != "-s"@, "note"@ != "-d"@,
        "note"@ != "-gc"@, "note"@ != "-b"@, "note"@ != "--bookmark"@, "note"@ != "bookmark"@,
        "set"@ != "del"@, "set"@ != "delete"@, "set"@ != "rm"@,
        "add"@ != "list"@, "add"@ != "ls"@, "add"@ != "del"@, "add"@ != "delete"@, "add"@ != "rm"@,
{
    reveal_strlit("-s"); reveal_strlit("-h"); reveal_strlit("--help"); reveal_strlit("--help-keys");
    reveal_strlit("--plain"); reveal_strlit("-i"); reveal_strlit("-l"); reveal_strlit("--list");
    reveal_strlit("-d"); reveal_strlit("-b"); reveal_strlit("-gc"); reveal_strlit("note");
    reveal_strlit("--bookmark"); reveal_strlit("bookmark"); reveal_strlit("set"); reveal_strlit("del");
    reveal_strlit("delete"); reveal_strlit("rm"); reveal_strlit("add"); reveal_strlit("list"); reveal_strlit("ls");
    assert("-s"@[1] != "-h"@[1] && "-s"@[1] != "--help"@[1] && "-s"@[1] != "--help-keys"@[1]);
    assert("-s"@[1] != "--plain"@[1] && "-s"@[1] != "-i"@[1] && "-s"@[1] != "-l"@[1] && "-s"@[1] != "--list"@[1]);
    assert("-d"@[1] != "-h"@[1] && "-d"@[1] != "--help"@[1] && "-d"@[1] != "--help-keys"@[1] && "-d"@[1] != "-s"@[1]);
    assert("-d"@[1] != "--plain"@[1] && "-d"@[1] != "-i"@[1] && "-d"@[1] != "-l"@[1] && "-d"@[1] != "--list"@[1]);
    assert("-b"@[1] != "-h"@[1] && "-b"@[1] != "--help"@[1] && "-b"@[1] != "--help-keys"@[1] && "-b"@[1] != "-s"@[1]);
    assert("-b"@[1] != "--plain"@[1] && "-b"@[1] != "-i"@[1] && "-b"@[1] != "-l"@[1] && "-b"@[1] != "--list"@[1]);
    assert("-b"@[1] != "-d"@[1] && "-b"@[1] != "-gc"@[1]);
    assert("note"@[0] != "-h"@[0] && "note"@[0] != "--help"@[0] && "note"@[0] != "--help-keys"@[0] && "note"@[0] != "-s"@[0]);
    assert("note"@[0] != "--plain"@[0] && "note"@[0] != "-i"@[0] && "note"@[0] != "-l"@[0] && "note"@[0] != "--list"@[0]);
    assert("note"@[0] != "-d"@[0] && "note"@[0] != "-gc"@[0] && "note"@[0] != "-b"@[0] && "note"@[0] != "--bookmark"@[0]);
    assert("note"@[0] != "bookmark"@[0]);
    assert("set"@[0] != "del"@[0] && "set"@[0] != "delete"@[0] && "set"@[0] != "rm"@[0]);
    assert("add"@[0] != "list"@[0] && "add"@[0] != "ls"@[0] && "add"@[0] != "del"@[0] && "add"@[0] != "delete"@[0] && "add"@[0] != "rm"@[0]);
}

/// `-s NOTE PATH` sets NOTE on PATH (the note comes first); `note set PATH NOTE` takes them the
/// other way round; whatever follows is ignored.
pub proof fn set_note_takes_note_then_path(a: Seq<char>, b: Seq<char>, rest: Seq<Seq<char>>)
    ensures
        parse_args_spec(seq!["-s"@, a, b] + rest) == Ok::<CliCommandView, CliErrorView>(
            CliCommandView::Note(NoteCommandView::SetNote { path: b, note: a }),
        ),
        parse_args_spec(seq!["note"@, "set"@, a, b] + rest) == Ok::<CliCommandView, CliErrorView>(
            CliCommandView::Note(NoteCommandView::SetNote { path: a, note: b }),
        ),
        parse_args_spec(seq!["-s"@]) == Err::<CliCommandView, CliErrorView>(CliErrorView::MissingNote),
        parse_args_spec(seq!["-s"@, a]) == Err::<CliCommandView, CliErrorView>(CliErrorView::MissingPath),
{
    lemma_flag_literals();
    let args = seq!["note"@, "set"@, a, b] + rest;
    assert(args.skip(1)[0] == "set"@ && args.skip(1)[1] == a && args.skip(1)[2] == b);
}

/// `-d PATH` deletes the note on PATH.
pub proof fn delete_note_takes_the_path(p: Seq<char>, rest: Seq<Seq<char>>)
    ensures
        parse_args_spec(seq!["-d"@, p] + rest) == Ok::<CliCommandView, CliErrorView>(
            CliCommandView::Note(NoteCommandView::Delete { path: p }),
        ),
{
    lemma_flag_literals();
}

/// `-b add NAME PATH` bookmarks PATH as NAME; without a path, the current directory `.`.
pub proof fn bookmark_add_takes_name_then_path(name: Seq<char>, p: Seq<char>, rest: Seq<Seq<char>>)
    ensures
        parse_args_spec(seq!["-b"@, "add"@, name, p] + rest) == Ok::<CliCommandView, CliErrorView>(
            CliCommandView::Bookmark(BookmarkCommandView::Add { name, path: p }),
        ),
        parse_args_spec(seq!["-b"@, "add"@, name]) == Ok::<CliCommandView, CliErrorView>(
            CliCommandView::Bookmark(BookmarkCommandView::Add { name, path: "."@ }),
        ),
{
    lemma_flag_literals();
    let args = seq!["-b"@, "add"@, name, p] + rest;
    assert(args.skip(1)[0] == "add"@ && args.skip(1)[1] == name && args.skip(1)[2] == p);
    let short = seq!["-b"@, "add"@, name];
    assert(short.skip(1) =~= seq!["add"@, name]);
}


/// With no arguments, or with a bare path that is no flag or subcommand word, the path (or
/// `.`) is listed plainly; `-i`, `-l`/`--list` and `--plain` take the path after them, `.`
/// when there is none.
pub proof fn viewing_commands_take_the_following_path(p: Seq<char>, rest: Seq<Seq<char>>)
    ensures
        parse_args_spec(Seq::empty()) == Ok::<CliCommandView, CliErrorView>(CliCommandView::Plain { path: "."@ }),
        parse_args_spec(seq!["-i"@, p] + rest) == Ok::<CliCommandView, CliErrorView>(CliCommandView::Inspect { path: p }),
        parse_args_spec(seq!["-i"@]) == Ok::<CliCommandView, CliErrorView>(CliCommandView::Inspect { path: "."@ }),
        parse_args_spec(seq!["-l"@, p] + rest) == Ok::<CliCommandView, CliErrorView>(CliCommandView::Tui { path: p }),
        parse_args_spec(seq!["--list"@, p] + rest) == Ok::<CliCommandView, CliErrorView>(CliCommandView::Tui { path: p }),
        parse_args_spec(seq!["-l"@]) == Ok::<CliCommandView, CliErrorView>(CliCommandView::Tui { path: "."@ }),
        parse_args_spec(seq!["--plain"@, p] + rest) == Ok::<CliCommandView, CliErrorView>(CliCommandView::Plain { path: p }),
        (p.len() > 0 && p[0] != '-' && p != "note"@ && p != "bookmark"@) ==> parse_args_spec(seq![p] + rest)
            == Ok::<CliCommandView, CliErrorView>(CliCommandView::Plain { path: p }),
{
    reveal_strlit("-i"); reveal_strlit("-h"); reveal_strlit("--help"); reveal_strlit("--help-keys");
    reveal_strlit("--plain"); reveal_strlit("-l"); reveal_strlit("--list"); reveal_strlit("-s");
    reveal_strlit("-d"); reveal_strlit("-gc"); reveal_strlit("-b"); reveal_strlit("--bookmark");
    reveal_strlit("bookmark"); reveal_strlit("note"); reveal_strlit("-");
    assert("-i"@[1] != "-h"@[1] && "-i"@[1] != "--help"@[1] && "-i"@[1] != "--help-keys"@[1] && "-i"@[1] != "--plain"@[1]);
    assert("-l"@[1] != "-h"@[1] && "-l"@[1] != "--help"@[1] && "-l"@[1] != "--help-keys"@[1] && "-l"@[1] != "--plain"@[1] && "-l"@[1] != "-i"@[1]);
    assert("--list"@[2] != "--help"@[2] && "--list"@[2] != "--help-keys"@[2] && "--list"@[2] != "--plain"@[2]);
    assert("--list"@.len() != "-h"@.len() && "--list"@.len() != "-i"@.len());
    assert("--plain"@[2] != "--help"@[2] && "--plain"@[2] != "--help-keys"@[2] && "--plain"@.len() != "-h"@.len());
    if p.len() > 0 && p[0] != '-' && p != "note"@ && p != "bookmark"@ {
        assert(p != "-h"@ && p != "--help"@ && p != "--help-keys"@ && p != "--plain"@ && p != "-i"@ && p != "-l"@) by {
            assert("-h"@[0] == '-' && "--help"@[0] == '-' && "--help-keys"@[0] == '-' && "--plain"@[0] == '-');
            assert("-i"@[0] == '-' && "-l"@[0] == '-');
        }
        assert(p != "--list"@ && p != "-s"@ && p != "-d"@ && p != "-gc"@ && p != "-b"@ && p != "--bookmark"@) by {
            assert("--list"@[0] == '-' && "-s"@[0] == '-' && "-d"@[0] == '-' && "-gc"@[0] == '-');
            assert("-b"@[0] == '-' && "--bookmark"@[0] == '-');
        }
        assert(!starts_with(p, "-"@)) by {
            if starts_with(p, "-"@) {
                assert(p.take(1)[0] == "-"@[0]);
            }
        }
    }
}


/// `-b` alone or `-b list` lists bookmarks, `-b del NAME` deletes NAME, and `-b NAME` for any
/// other word jumps to the bookmark NAME.
pub proof fn bookmark_words(name: Seq<char>, rest: Seq<Seq<char>>)
    ensures
        parse_args_spec(seq!["-b"@]) == Ok::<CliCommandView, CliErrorView>(CliCommandView::Bookmark(BookmarkCommandView::List)),
        parse_args_spec(seq!["-b"@, "list"@] + rest) == Ok::<CliCommandView, CliErrorView>(CliCommandView::Bookmark(BookmarkCommandView::List)),
        parse_args_spec(seq!["-b"@, "del"@, name] + rest) == Ok::<CliCommandView, CliErrorView>(
            CliCommandView::Bookmark(BookmarkCommandView::Delete { name }),
        ),
        (name != "add"@ && name != "list"@ && name != "ls"@ && name != "del"@ && name != "delete"@ && name != "rm"@)
            ==> parse_args_spec(seq!["-b"@, name] + rest) == Ok::<CliCommandView, CliErrorView>(
                CliCommandView::Bookmark(BookmarkCommandView::Jump { name }),
            ),
{
    lemma_flag_literals();
    reveal_strlit("list"); reveal_strlit("del"); reveal_strlit("add"); reveal_strlit("ls");
    assert("list"@[0] != "add"@[0] && "del"@[0] != "add"@[0] && "del"@[0] != "list"@[0] && "del"@[0] != "ls"@[0]);
    assert(seq!["-b"@].skip(1) =~= Seq::<Seq<char>>::empty());
    let a = seq!["-b"@, "list"@] + rest;
    assert(a.skip(1)[0] == "list"@);
    let d = seq!["-b"@, "del"@, name] + rest;
    assert(d.skip(1)[0] == "del"@ && d.skip(1)[1] == name);
    let j = seq!["-b"@, name] + rest;
    assert(j.skip(1)[0] == name);
}

} // verus!
