//! The plain listing: one colored line per entry, with its note or summary aligned.
use vstd::prelude::*;
use crate::infra::fs::{truncate_chars, truncate_spec};
use crate::lexing::{text_words, words_of, words_state};
use crate::text::unicode_whitespace;
use crate::surfaces::tui::ui::{display_width, text_width};
use crate::text::{append_str, join, join_strings, push_spaces, spaces, starts_with, views};

verus! {

/// A note or summary on one line: its words joined by single spaces, cut to 72 characters.
pub open spec fn compact_suffix_spec(text: Seq<char>) -> Seq<char> {
    truncate_spec(join(text_words(text), seq![' ']), 72)
}

pub fn compact_suffix(text: &str) -> (r: String)
    ensures
        r@ == compact_suffix_spec(text@),
{
    let words = words_of(text);
    let joined = join_strings(&words, " ");
    proof {
        reveal_strlit(" ");
        assert(" "@ =~= seq![' ']);
    }
    truncate_chars(joined.as_str(), 72)
}

/// The widest display name, at least 20 columns.
pub open spec fn name_column_from(names: Seq<Seq<char>>, i: int, acc: usize) -> usize
    decreases names.len() - i,
{
    if i < 0 || i >= names.len() {
        acc
    } else {
        name_column_from(names, i + 1, if text_width(names[i]) > acc { text_width(names[i]) } else { acc })
    }
}

pub fn name_column_width(names: &Vec<String>) -> (r: usize)
    ensures
        r == name_column_from(views(names@), 0, 20),
{
    let mut acc: usize = 20;
    let mut i: usize = 0;
    while i < names.len()
        invariant
            i <= names.len(),
            name_column_from(views(names@), 0, 20) == name_column_from(views(names@), i as int, acc),
        decreases names.len() - i,
    {
        let w = display_width(names[i].as_str());
        if w > acc {
            acc = w;
        }
        i = i + 1;
    }
    acc
}

pub open spec fn reset() -> Seq<char> {
    seq!['\x1b', '[', '0', 'm']
}

/// One listing line: the colored name, then, aligned after the name column and four
/// spaces, the note in yellow or else the summary in gray.
pub open spec fn list_line_spec(color: Seq<char>, name: Seq<char>, width: usize, note: Option<Seq<char>>, summary: Option<Seq<char>>) -> Seq<char> {
    let nw = text_width(name);
    let pad = spaces(((if width >= nw { width - nw } else { 0 }) + 4) as nat);
    match note {
        Some(n) => color + name + reset() + pad + seq!['\x1b', '[', '3', '3', 'm', '#', ' '] + compact_suffix_spec(n) + reset(),
        None => match summary {
            Some(s) => color + name + reset() + pad + seq!['\x1b', '[', '9', '0', 'm', '#', ' '] + compact_suffix_spec(s) + reset(),
            None => color + name + reset(),
        },
    }
}

pub fn list_line(color: &str, name: &str, width: usize, note: Option<&str>, summary: Option<&str>) -> (r: String)
    requires
        width <= usize::MAX - 4,
    ensures
        r@ == list_line_spec(color@, name@, width, match note { Some(n) => Some(n@), None => None }, match summary { Some(s) => Some(s@), None => None }),
{
    let nw = display_width(name);
    let gap = (if width >= nw { width - nw } else { 0 }) + 4;
    let mut line = String::new();
    append_str(&mut line, color);
    append_str(&mut line, name);
    append_str(&mut line, "\x1b[0m");
    proof {
        reveal_strlit("\x1b[0m");
        reveal_strlit("\x1b[33m# ");
        reveal_strlit("\x1b[90m# ");
        assert("\x1b[0m"@ =~= reset());
        assert("\x1b[33m# "@ =~= seq!['\x1b', '[', '3', '3', 'm', '#', ' ']);
        assert("\x1b[90m# "@ =~= seq!['\x1b', '[', '9', '0', 'm', '#', ' ']);
    }
    let ghost head = line@;
    match note {
        Some(n) => {
            push_spaces(&mut line, gap);
            append_str(&mut line, "\x1b[33m# ");
            let c = compact_suffix(n);
            append_str(&mut line, c.as_str());
            append_str(&mut line, "\x1b[0m");
        },
        None => match summary {
            Some(s) => {
                push_spaces(&mut line, gap);
                append_str(&mut line, "\x1b[90m# ");
                let c = compact_suffix(s);
                append_str(&mut line, c.as_str());
                append_str(&mut line, "\x1b[0m");
            },
            None => {},
        },
    }
    assert(line@ =~= list_line_spec(color@, name@, width, match note { Some(n) => Some(n@), None => None }, match summary { Some(s) => Some(s@), None => None }));
    line
}


/// The colour code for notes.
pub open spec fn note_color() -> Seq<char> {
    seq!['\x1b', '[', '3', '3', 'm']
}

/// The colour code for summaries.
pub open spec fn summary_color() -> Seq<char> {
    seq!['\x1b', '[', '9', '0', 'm']
}

/// A listing line is the coloured name; then, where the entry has a note, the note in yellow,
/// otherwise, where it has a summary, the summary in gray, each as `# ` and its compacted
/// text after at least four spaces that bring it to the column `width + 4`; with neither, the
/// line ends after the name.
pub proof fn list_line_shows_note_else_summary(
    color: Seq<char>,
    name: Seq<char>,
    width: usize,
    note: Option<Seq<char>>,
    summary: Option<Seq<char>>,
)
    ensures
        starts_with(list_line_spec(color, name, width, note, summary), color + name + reset()),
        note matches Some(n) ==> exists|k: nat| #![trigger spaces(k)] k >= 4
            && (text_width(name) <= width ==> text_width(name) + k == width + 4)
            && list_line_spec(color, name, width, note, summary)
                == color + name + reset() + spaces(k) + note_color() + seq!['#', ' '] + compact_suffix_spec(n) + reset(),
        note is None ==> (summary matches Some(sm) ==> exists|k: nat| #![trigger spaces(k)] k >= 4
            && (text_width(name) <= width ==> text_width(name) + k == width + 4)
            && list_line_spec(color, name, width, note, summary)
                == color + name + reset() + spaces(k) + summary_color() + seq!['#', ' '] + compact_suffix_spec(sm) + reset()),
        note is None && summary is None ==> list_line_spec(color, name, width, note, summary) == color + name + reset(),
{
    let head = color + name + reset();
    let nw = text_width(name);
    let k: nat = ((if width >= nw { width - nw } else { 0 }) + 4) as nat;
    let r = list_line_spec(color, name, width, note, summary);
    match note {
        Some(n) => {
            let tail = note_color() + seq!['#', ' '] + compact_suffix_spec(n) + reset();
            assert(r =~= head + spaces(k) + tail);
            assert(r.take(head.len() as int) =~= head);
            assert(r == color + name + reset() + spaces(k) + note_color() + seq!['#', ' '] + compact_suffix_spec(n) + reset());
        },
        None => match summary {
            Some(sm) => {
                let tail = summary_color() + seq!['#', ' '] + compact_suffix_spec(sm) + reset();
                assert(r =~= head + spaces(k) + tail);
                assert(r.take(head.len() as int) =~= head);
                assert(r == color + name + reset() + spaces(k) + summary_color() + seq!['#', ' '] + compact_suffix_spec(sm) + reset());
            },
            None => {
                assert(r.take(head.len() as int) =~= head);
            },
        },
    }
}


/// No white space in `t` but plain spaces: `t` stays on one line.
pub open spec fn one_line(t: Seq<char>) -> bool {
    forall|i: int| 0 <= i < t.len() ==> !(unicode_whitespace(#[trigger] t[i]) && t[i] != ' ')
}

proof fn lemma_words_state(s: Seq<char>)
    ensures
        forall|k: int| 0 <= k < words_state(s).0.len() ==> one_line(#[trigger] words_state(s).0[k]),
        one_line(words_state(s).1),
    decreases s.len(),
{
    if s.len() > 0 {
        lemma_words_state(s.drop_last());
        let (done, cur) = words_state(s.drop_last());
        if unicode_whitespace(s.last()) {
            if cur.len() > 0 {
                let d2 = done.push(cur);
                assert forall|k: int| 0 <= k < d2.len() implies one_line(#[trigger] d2[k]) by {
                    if k < done.len() {
                        assert(d2[k] == done[k]);
                    }
                }
            }
            assert(one_line(Seq::<char>::empty()));
        } else {
            let c2 = cur.push(s.last());
            assert forall|i: int| 0 <= i < c2.len() implies !(unicode_whitespace(#[trigger] c2[i]) && c2[i] != ' ') by {
                if i < cur.len() {
                    assert(c2[i] == cur[i]);
                }
            }
        }
    }
}

proof fn lemma_join_one_line(parts: Seq<Seq<char>>)
    requires
        forall|k: int| 0 <= k < parts.len() ==> one_line(#[trigger] parts[k]),
    ensures
        one_line(join(parts, seq![' '])),
    decreases parts.len(),
{
    if parts.len() > 1 {
        lemma_join_one_line(parts.drop_last());
        let a = join(parts.drop_last(), seq![' ']);
        let b = parts.last();
        assert(one_line(b));
        let r = a + seq![' '] + b;
        assert forall|i: int| 0 <= i < r.len() implies !(unicode_whitespace(#[trigger] r[i]) && r[i] != ' ') by {
            if i < a.len() {
                assert(r[i] == a[i]);
            } else if i == a.len() {
                assert(r[i] == ' ');
            } else {
                assert(r[i] == b[i - a.len() - 1]);
            }
        }
    } else if parts.len() == 1 {
        assert(one_line(parts[0]));
    }
}

/// A note or summary in the listing is at most 72 characters and on one line: its line breaks
/// and other white space become single spaces.
pub proof fn compact_suffix_is_short_and_one_line(text: Seq<char>)
    ensures
        compact_suffix_spec(text).len() <= 72,
        one_line(compact_suffix_spec(text)),
{
    lemma_words_state(text);
    let (done, cur) = words_state(text);
    let ws = text_words(text);
    assert forall|k: int| 0 <= k < ws.len() implies one_line(#[trigger] ws[k]) by {
        if k < done.len() {
            assert(ws[k] == done[k]);
        } else {
            assert(ws[k] == cur);
        }
    }
    lemma_join_one_line(ws);
    let j = join(ws, seq![' ']);
    let r = compact_suffix_spec(text);
    if j.len() > 72 {
        assert forall|i: int| 0 <= i < r.len() implies !(unicode_whitespace(#[trigger] r[i]) && r[i] != ' ') by {
            if i < 69 {
                assert(r[i] == j[i]);
            }
        }
    }
}

} // verus!
