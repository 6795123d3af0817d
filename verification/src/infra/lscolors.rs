//! Terminal colors for file names, read from an `LS_COLORS` value.
use vstd::prelude::*;
use crate::infra::fs::{after_first, before_first, find_char, lemma_first_at};
use crate::lexing::{split_by, split_on};
use crate::paths::{path_extension, path_extension_spec};
use crate::text::{
    ascii_lower, chars_of, ends_with, slice_chars, starts_with, str_eq, str_lowercase,
    string_from, to_ascii_lowercase, to_lowercase, views,
};

verus! {

/// Escape sequences for kinds of entries and for name patterns.
#[derive(Debug, Clone)]
pub struct LsColors {
    pub codes: Vec<(String, String)>,
    pub default_file: String,
    pub default_dir: String,
    pub default_link: String,
    pub default_executable: String,
}

pub struct LsColorsView {
    pub codes: Seq<(Seq<char>, Seq<char>)>,
    pub default_file: Seq<char>,
    pub default_dir: Seq<char>,
    pub default_link: Seq<char>,
    pub default_executable: Seq<char>,
}

impl View for LsColors {
    type V = LsColorsView;

    open spec fn view(&self) -> LsColorsView {
        LsColorsView {
            codes: views(self.codes@),
            default_file: self.default_file@,
            default_dir: self.default_dir@,
            default_link: self.default_link@,
            default_executable: self.default_executable@,
        }
    }
}

/// The SGR escape sequence with parameters `v`.
pub open spec fn escape_code(v: Seq<char>) -> Seq<char> {
    seq!['\x1b', '['] + v + seq!['m']
}

pub open spec fn initial_colors() -> LsColorsView {
    LsColorsView {
        codes: Seq::empty(),
        default_file: escape_code(seq!['0']),
        default_dir: escape_code(seq!['0', '1', ';', '3', '4']),
        default_link: escape_code(seq!['0', '1', ';', '3', '6']),
        default_executable: escape_code(seq!['0', '1', ';', '3', '2']),
    }
}

/// The position of `key` among the patterns from `i` on.
pub open spec fn key_index(codes: Seq<(Seq<char>, Seq<char>)>, key: Seq<char>, i: int) -> Option<int>
    decreases codes.len() - i,
{
    if i < 0 || i >= codes.len() {
        None
    } else if codes[i].0 == key {
        Some(i)
    } else {
        key_index(codes, key, i + 1)
    }
}

/// The patterns with `key` set to `code`: replaced where present, else added last.
pub open spec fn with_code(codes: Seq<(Seq<char>, Seq<char>)>, key: Seq<char>, code: Seq<char>) -> Seq<(Seq<char>, Seq<char>)> {
    match key_index(codes, key, 0) {
        Some(i) => codes.update(i, (key, code)),
        None => codes.push((key, code)),
    }
}

/// One `key=value` entry: `fi`, `di`, `ln` and `ex` set the defaults, any other key a
/// pattern; entries without `=` are ignored.
pub open spec fn apply_entry(st: LsColorsView, part: Seq<char>) -> LsColorsView {
    match after_first(part, '=') {
        None => st,
        Some(v) => {
            let key = before_first(part, '=');
            let c = escape_code(v);
            if key == seq!['f', 'i'] {
                LsColorsView { default_file: c, ..st }
            } else if key == seq!['d', 'i'] {
                LsColorsView { default_dir: c, ..st }
            } else if key == seq!['l', 'n'] {
                LsColorsView { default_link: c, ..st }
            } else if key == seq!['e', 'x'] {
                LsColorsView { default_executable: c, ..st }
            } else {
                LsColorsView { codes: with_code(st.codes, key, c), ..st }
            }
        },
    }
}

pub open spec fn apply_entries(st: LsColorsView, parts: Seq<Seq<char>>) -> LsColorsView
    decreases parts.len(),
{
    if parts.len() == 0 {
        st
    } else {
        apply_entry(apply_entries(st, parts.drop_last()), parts.last())
    }
}

/// The colors an `LS_COLORS` value sets, over the defaults.
pub open spec fn parse_spec(value: Seq<char>) -> LsColorsView {
    apply_entries(initial_colors(), split_on(value, ':'))
}

/// No pattern occurs twice.
pub open spec fn keys_unique(codes: Seq<(Seq<char>, Seq<char>)>) -> bool {
    forall|i: int, j: int| 0 <= i < j < codes.len() ==> #[trigger] codes[i].0 != #[trigger] codes[j].0
}

/// Whether some pattern is `k`.
pub open spec fn has_key(codes: Seq<(Seq<char>, Seq<char>)>, k: Seq<char>) -> bool {
    exists|i: int| 0 <= i < codes.len() && #[trigger] codes[i].0 == k
}

proof fn lemma_key_index(codes: Seq<(Seq<char>, Seq<char>)>, key: Seq<char>, i: int)
    requires
        0 <= i,
    ensures
        match key_index(codes, key, i) {
            Some(k) => i <= k < codes.len() && codes[k].0 == key,
            None => forall|j: int| i <= j < codes.len() ==> #[trigger] codes[j].0 != key,
        },
    decreases codes.len() - i,
{
    if i < codes.len() && codes[i].0 != key {
        lemma_key_index(codes, key, i + 1);
    }
}

proof fn lemma_with_code(codes: Seq<(Seq<char>, Seq<char>)>, key: Seq<char>, code: Seq<char>)
    requires
        keys_unique(codes),
    ensures
        keys_unique(with_code(codes, key, code)),
        with_code(codes, key, code).contains((key, code)),
        forall|k: Seq<char>| #[trigger] has_key(codes, k) ==> has_key(with_code(codes, key, code), k),
{
    lemma_key_index(codes, key, 0);
    let r = with_code(codes, key, code);
    match key_index(codes, key, 0) {
        Some(p) => {
            assert(r[p] == (key, code));
            assert forall|i: int, j: int| 0 <= i < j < r.len() implies #[trigger] r[i].0 != #[trigger] r[j].0 by {
                if i != p && j != p {
                    assert(r[i] == codes[i] && r[j] == codes[j]);
                } else if i == p {
                    assert(r[j] == codes[j]);
                } else {
                    assert(r[i] == codes[i]);
                }
            }
            assert forall|k: Seq<char>| #[trigger] has_key(codes, k) implies has_key(r, k) by {
                let i = choose|i: int| 0 <= i < codes.len() && #[trigger] codes[i].0 == k;
                if i == p {
                    assert(r[p].0 == k);
                } else {
                    assert(r[i] == codes[i]);
                }
            }
        },
        None => {
            assert(r[codes.len() as int] == (key, code));
            assert forall|i: int, j: int| 0 <= i < j < r.len() implies #[trigger] r[i].0 != #[trigger] r[j].0 by {
                assert(r[i] == codes[i]);
                if j < codes.len() {
                    assert(r[j] == codes[j]);
                }
            }
            assert forall|k: Seq<char>| #[trigger] has_key(codes, k) implies has_key(r, k) by {
                let i = choose|i: int| 0 <= i < codes.len() && #[trigger] codes[i].0 == k;
                assert(r[i] == codes[i]);
            }
        },
    }
}

proof fn lemma_apply_entries_unique(parts: Seq<Seq<char>>)
    ensures
        keys_unique(apply_entries(initial_colors(), parts).codes),
    decreases parts.len(),
{
    if parts.len() > 0 {
        lemma_apply_entries_unique(parts.drop_last());
        let st = apply_entries(initial_colors(), parts.drop_last());
        let part = parts.last();
        if let Some(v) = after_first(part, '=') {
            lemma_with_code(st.codes, before_first(part, '='), escape_code(v));
        }
    }
}

/// Like a map, the parsed colors hold each pattern at most once.
pub proof fn parsed_patterns_unique(value: Seq<char>)
    ensures
        keys_unique(parse_spec(value).codes),
{
    lemma_apply_entries_unique(split_on(value, ':'));
}

/// A `key=value` entry for a pattern sets that pattern's code: whatever came before, the
/// pattern then has exactly that code, and every pattern set before is still there.
pub proof fn pattern_entry_sets_code(st: LsColorsView, key: Seq<char>, value: Seq<char>)
    requires
        keys_unique(st.codes),
        key != seq!['f', 'i'],
        key != seq!['d', 'i'],
        key != seq!['l', 'n'],
        key != seq!['e', 'x'],
        !key.contains('='),
    ensures
        apply_entry(st, key + seq!['='] + value).codes.contains((key, escape_code(value))),
        keys_unique(apply_entry(st, key + seq!['='] + value).codes),
        forall|k: Seq<char>| #[trigger] has_key(st.codes, k) ==> has_key(apply_entry(st, key + seq!['='] + value).codes, k),
{
    let part = key + seq!['='] + value;
    let k = key.len() as int;
    assert forall|j: int| 0 <= j < k implies part[j] != '=' by {
        assert(part[j] == key[j]);
        if key[j] == '=' {
            assert(key.contains('='));
        }
    }
    assert(part[k] == '=');
    lemma_first_at(part, '=', k);
    assert(part.skip(k + 1) =~= value);
    assert(part.take(k) =~= key);
    lemma_with_code(st.codes, key, escape_code(value));
}

fn escape_of(v: &Vec<char>) -> (r: String)
    ensures
        r@ == escape_code(v@),
{
    let mut w: Vec<char> = Vec::new();
    w.push('\x1b');
    w.push('[');
    let mut i: usize = 0;
    while i < v.len()
        invariant
            i <= v.len(),
            w@ == seq!['\x1b', '['] + v@.take(i as int),
        decreases v.len() - i,
    {
        w.push(v[i]);
        assert(v@.take(i + 1) =~= v@.take(i as int).push(v@[i as int]));
        i = i + 1;
    }
    w.push('m');
    assert(w@ =~= escape_code(v@));
    string_from(&w)
}

fn set_code(codes: &mut Vec<(String, String)>, key: String, code: String)
    ensures
        views(final(codes)@) == with_code(views(old(codes)@), key@, code@),
{
    let ghost cs = views(codes@);
    let mut i: usize = 0;
    let mut found = false;
    while i < codes.len()
        invariant_except_break
            !found,
        invariant
            i <= codes.len(),
            cs == views(codes@),
            key_index(cs, key@, 0) == key_index(cs, key@, i as int),
        ensures
            i <= codes.len(),
            found ==> i < codes.len() && key_index(cs, key@, 0) == Some(i as int),
            !found ==> key_index(cs, key@, 0) is None,
        decreases codes.len() - i,
    {
        if str_eq(codes[i].0.as_str(), key.as_str()) {
            assert(cs[i as int].0 == key@);
            found = true;
            break;
        }
        i = i + 1;
    }
    if found {
        codes.set(i, (key, code));
        assert(views(codes@) =~= cs.update(i as int, (key@, code@)));
    } else {
        codes.push((key, code));
        assert(views(codes@) =~= cs.push((key@, code@)));
    }
}

impl LsColors {
    /// The colors set by an `LS_COLORS` value, over the defaults.
    pub fn parse(value: &str) -> (r: LsColors)
        ensures
            r@ == parse_spec(value@),
    {
        let parts = split_by(value, ':');
        let mut r = LsColors {
            codes: Vec::new(),
            default_file: String::from_str("\x1b[0m"),
            default_dir: String::from_str("\x1b[01;34m"),
            default_link: String::from_str("\x1b[01;36m"),
            default_executable: String::from_str("\x1b[01;32m"),
        };
        proof {
            reveal_strlit("\x1b[0m");
            reveal_strlit("\x1b[01;34m");
            reveal_strlit("\x1b[01;36m");
            reveal_strlit("\x1b[01;32m");
            assert(r@.codes =~= Seq::<(Seq<char>, Seq<char>)>::empty());
            assert(r@.default_file =~= initial_colors().default_file);
            assert(r@.default_dir =~= initial_colors().default_dir);
            assert(r@.default_link =~= initial_colors().default_link);
            assert(r@.default_executable =~= initial_colors().default_executable);
            assert(r@ == initial_colors());
        }
        let mut i: usize = 0;
        while i < parts.len()
            invariant
                i <= parts.len(),
                views(parts@) == split_on(value@, ':'),
                r@ == apply_entries(initial_colors(), views(parts@).take(i as int)),
            decreases parts.len() - i,
        {
            assert(views(parts@).take(i + 1).drop_last() =~= views(parts@).take(i as int));
            proof {
                reveal_strlit("fi");
                reveal_strlit("di");
                reveal_strlit("ln");
                reveal_strlit("ex");
                assert("fi"@ =~= seq!['f', 'i']);
                assert("di"@ =~= seq!['d', 'i']);
                assert("ln"@ =~= seq!['l', 'n']);
                assert("ex"@ =~= seq!['e', 'x']);
            }
            let ghost st = r@;
            let part = chars_of(parts[i].as_str());
            let k = find_char(&part, '=');
            proof {
                lemma_first_at(part@, '=', k as int);
            }
            if k < part.len() {
                let keyv = slice_chars(&part, 0, k);
                let val = slice_chars(&part, k + 1, part.len());
                assert(keyv@ =~= part@.take(k as int));
                assert(val@ =~= part@.skip(k + 1));
                let c = escape_of(&val);
                let key = string_from(&keyv);
                if str_eq(key.as_str(), "fi") {
                    r.default_file = c;
                } else if str_eq(key.as_str(), "di") {
                    r.default_dir = c;
                } else if str_eq(key.as_str(), "ln") {
                    r.default_link = c;
                } else if str_eq(key.as_str(), "ex") {
                    r.default_executable = c;
                } else {
                    set_code(&mut r.codes, key, c);
                }
                assert(r@ == apply_entry(st, part@));
            } else {
                assert(r@ == apply_entry(st, part@));
            }
            i = i + 1;
        }
        assert(views(parts@).take(parts.len() as int) =~= views(parts@));
        r
    }
}


/// Whether a file name matches an `LS_COLORS` pattern: `*.ext` by extension (ASCII case
/// ignored), `*suffix` by lower-cased suffix, anything else by the whole name (ASCII case
/// ignored).
pub open spec fn pattern_matches(name: Seq<char>, pattern: Seq<char>) -> bool {
    if starts_with(pattern, seq!['*', '.']) {
        match path_extension_spec(name) {
            Some(e) => ascii_lower(e) == ascii_lower(pattern.skip(2)),
            None => false,
        }
    } else if starts_with(pattern, seq!['*']) {
        ends_with(str_lowercase(name), str_lowercase(pattern.skip(1)))
    } else {
        ascii_lower(name) == ascii_lower(pattern)
    }
}

/// The code of the first pattern from position `i` on that matches `name`.
pub open spec fn first_match(codes: Seq<(Seq<char>, Seq<char>)>, name: Seq<char>, i: int) -> Option<Seq<char>>
    decreases codes.len() - i,
{
    if i < 0 || i >= codes.len() {
        None
    } else if pattern_matches(name, codes[i].0) {
        Some(codes[i].1)
    } else {
        first_match(codes, name, i + 1)
    }
}

/// The color of an entry: directories, links and executables by kind, other files by the
/// first pattern their name matches, else the file default.
pub open spec fn color_for_spec(c: LsColorsView, name: Seq<char>, is_dir: bool, is_symlink: bool, is_executable: bool) -> Seq<char> {
    if is_dir {
        c.default_dir
    } else if is_symlink {
        c.default_link
    } else if is_executable {
        c.default_executable
    } else {
        match first_match(c.codes, name, 0) {
            Some(code) => code,
            None => c.default_file,
        }
    }
}

pub(crate) fn ascii_eq(a: &str, b: &str) -> (r: bool)
    ensures
        r == (ascii_lower(a@) == ascii_lower(b@)),
{
    let la = to_ascii_lowercase(a);
    let lb = to_ascii_lowercase(b);
    str_eq(la.as_str(), lb.as_str())
}

impl LsColors {
    /// Whether `name` matches `pattern`.
    pub fn matches_pattern(&self, name: &str, pattern: &str) -> (r: bool)
        ensures
            r == pattern_matches(name@, pattern@),
    {
        let p = chars_of(pattern);
        if p.len() >= 2 && p[0] == '*' && p[1] == '.' {
            assert(starts_with(p@, seq!['*', '.'])) by {
                assert(p@.take(2) =~= seq!['*', '.']);
            }
            let ext = string_from(&slice_chars(&p, 2, p.len()));
            assert(ext@ =~= pattern@.skip(2));
            return match path_extension(name) {
                Some(e) => ascii_eq(e.as_str(), ext.as_str()),
                None => false,
            };
        }
        assert(!starts_with(p@, seq!['*', '.'])) by {
            if starts_with(p@, seq!['*', '.']) {
                assert(p@.take(2)[0] == '*' && p@.take(2)[1] == '.');
            }
        }
        if p.len() >= 1 && p[0] == '*' {
            assert(starts_with(p@, seq!['*'])) by {
                assert(p@.take(1) =~= seq!['*']);
            }
            let suffix = string_from(&slice_chars(&p, 1, p.len()));
            assert(suffix@ =~= pattern@.skip(1));
            let ln = to_lowercase(name);
            let ls = to_lowercase(suffix.as_str());
            return crate::text::str_ends_with(ln.as_str(), ls.as_str());
        }
        assert(!starts_with(p@, seq!['*'])) by {
            if starts_with(p@, seq!['*']) {
                assert(p@.take(1)[0] == '*');
            }
        }
        ascii_eq(name, pattern)
    }

    /// The color escape for an entry.
    pub fn for_path(&self, name: &str, is_dir: bool, is_symlink: bool, is_executable: bool) -> (r: String)
        ensures
            r@ == color_for_spec(self@, name@, is_dir, is_symlink, is_executable),
    {
        if is_dir {
            return self.default_dir.clone();
        }
        if is_symlink {
            return self.default_link.clone();
        }
        if is_executable {
            return self.default_executable.clone();
        }
        let mut i: usize = 0;
        while i < self.codes.len()
            invariant
                i <= self.codes.len(),
                !is_dir && !is_symlink && !is_executable,
                first_match(self@.codes, name@, 0) == first_match(self@.codes, name@, i as int),
            decreases self.codes.len() - i,
        {
            assert(self@.codes[i as int] == (self.codes@[i as int].0@, self.codes@[i as int].1@));
            if self.matches_pattern(name, self.codes[i].0.as_str()) {
                return self.codes[i].1.clone();
            }
            i = i + 1;
        }
        self.default_file.clone()
    }
}

} // verus!
