//! Terminal colors for file names with the fuller `LS_COLORS` pattern language: extension,
//! suffix, prefix, anchored and dotted patterns.
use vstd::prelude::*;
use crate::infra::lscolors::{ascii_eq, parse_spec, LsColorsView};
use crate::paths::{path_extension, path_extension_spec};
use crate::text::{
    ascii_lower, chars_of, contains_seq, ends_with, slice_chars, starts_with, str_lowercase,
    string_from, to_lowercase,
};
use crate::text::{chars_contain, chars_end_with, chars_start_with, str_ends_with, str_starts_with};
use crate::infra::syntax::trim_start_char;

verus! {

/// Escape sequences for kinds of entries and for name patterns, patterns in the order they
/// were first set.
#[derive(Debug, Clone)]
pub struct LsColors {
    pub colors: crate::infra::lscolors::LsColors,
}

impl View for LsColors {
    type V = LsColorsView;

    open spec fn view(&self) -> LsColorsView {
        self.colors@
    }
}

/// `s` without leading repetitions of `p` (`str::trim_start_matches` with a string).
pub open spec fn trim_start_seq(s: Seq<char>, p: Seq<char>) -> Seq<char>
    decreases s.len(),
{
    if p.len() > 0 && starts_with(s, p) {
        trim_start_seq(s.skip(p.len() as int), p)
    } else {
        s
    }
}

pub open spec fn ascii_eq_spec(a: Seq<char>, b: Seq<char>) -> bool {
    ascii_lower(a) == ascii_lower(b)
}

/// Whether a file name matches a pattern: `*.ext` by extension; `*)ext` by extension, or by the
/// whole name where there is none; `*suffix` by lower-cased suffix; `prefix*` by lower-cased
/// prefix; `.*.ext`-like patterns by extension; `^name$` and anything else by the whole name.
/// Extensions and whole names compare with ASCII case ignored.
pub open spec fn pattern_matches(name: Seq<char>, pattern: Seq<char>) -> bool {
    let ext = path_extension_spec(name);
    if starts_with(pattern, seq!['*', '.']) {
        match ext {
            Some(e) => ascii_eq_spec(e, pattern.skip(2)),
            None => false,
        }
    } else if starts_with(pattern, seq!['*', ')']) {
        match ext {
            Some(e) => ascii_eq_spec(e, pattern.skip(2)),
            None => ascii_eq_spec(name, pattern.skip(2)),
        }
    } else if starts_with(pattern, seq!['*']) {
        ends_with(str_lowercase(name), str_lowercase(pattern.skip(1)))
    } else if ends_with(pattern, seq!['*']) {
        starts_with(str_lowercase(name), str_lowercase(pattern.take(pattern.len() - 1)))
    } else if starts_with(pattern, seq!['.']) && contains_seq(pattern, seq!['.', '*']) {
        match ext {
            Some(e) => ascii_eq_spec(e, trim_start_seq(trim_start_char(pattern, '.'), seq!['*', '.'])),
            None => false,
        }
    } else if starts_with(pattern, seq!['^']) && ends_with(pattern, seq!['$']) {
        ascii_eq_spec(name, pattern.subrange(1, pattern.len() - 1))
    } else {
        ascii_eq_spec(name, pattern)
    }
}

/// The code of the first pattern from position `i` on that matches `name`.
pub open spec fn first_match(codes: Seq<(Seq<char>, Seq<char>)>, name: Seq<char>, i: int) -> Option<Seq<char>>
    decreases codes.len() - i,
{
    if i < 0 || i >= codes.len() {
        None
    } else if pattern_matches(name, codes[i].0) {
        Some(codes[i].1)
    } else {
        first_match(codes, name, i + 1)
    }
}

/// The color of an entry: directories, links and executables by kind, other files by the
/// first pattern their name matches, else the file default.
pub open spec fn color_for_spec(c: LsColorsView, name: Seq<char>, is_dir: bool, is_symlink: bool, is_executable: bool) -> Seq<char> {
    if is_dir {
        c.default_dir
    } else if is_symlink {
        c.default_link
    } else if is_executable {
        c.default_executable
    } else {
        match first_match(c.codes, name, 0) {
            Some(code) => code,
            None => c.default_file,
        }
    }
}

fn trim_start_pair(v: &Vec<char>, a: char, b: char) -> (r: Vec<char>)
    ensures
        r@ == trim_start_seq(v@, seq![a, b]),
{
    let mut lo: usize = 0;
    assert(v@.skip(0) =~= v@);
    while v.len() - lo >= 2 && v[lo] == a && v[lo + 1] == b
        invariant
            lo <= v.len(),
            trim_start_seq(v@, seq![a, b]) == trim_start_seq(v@.skip(lo as int), seq![a, b]),
        decreases v.len() - lo,
    {
        assert(starts_with(v@.skip(lo as int), seq![a, b])) by {
            assert(v@.skip(lo as int).take(2) =~= seq![a, b]);
        }
        assert(v@.skip(lo as int).skip(2) =~= v@.skip(lo + 2));
        lo = lo + 2;
    }
    assert(!starts_with(v@.skip(lo as int), seq![a, b])) by {
        if starts_with(v@.skip(lo as int), seq![a, b]) {
            assert(v@.skip(lo as int).take(2)[0] == a);
            assert(v@.skip(lo as int).take(2)[1] == b);
        }
    }
    slice_chars(v, lo, v.len())
}

fn trim_start_one(v: &Vec<char>, c: char) -> (r: Vec<char>)
    ensures
        r@ == trim_start_char(v@, c),
{
    let mut lo: usize = 0;
    assert(v@.skip(0) =~= v@);
    while lo < v.len() && v[lo] == c
        invariant
            lo <= v.len(),
            trim_start_char(v@, c) == trim_start_char(v@.skip(lo as int), c),
        decreases v.len() - lo,
    {
        assert(v@.skip(lo as int).drop_first() =~= v@.skip(lo + 1));
        lo = lo + 1;
    }
    slice_chars(v, lo, v.len())
}

impl LsColors {
    /// The colors set by an `LS_COLORS` value, over the defaults.
    pub fn parse(value: &str) -> (r: LsColors)
        ensures
            r@ == parse_spec(value@),
    {
        LsColors { colors: crate::infra::lscolors::LsColors::parse(value) }
    }

    /// Whether `name` matches `pattern`.
    pub fn matches_pattern(&self, name: &str, pattern: &str) -> (r: bool)
        ensures
            r == pattern_matches(name@, pattern@),
    {
        let p = chars_of(pattern);
        let n = p.len();
        let starts2 = |x: char, y: char| -> (b: bool)
            ensures
                b == starts_with(p@, seq![x, y]),
            {
                let q = vec![x, y];
                assert(q@ =~= seq![x, y]);
                chars_start_with(&p, &q)
            };
        let star_dot = starts2('*', '.');
        let star_paren = starts2('*', ')');
        if star_dot || star_paren {
            let rest = string_from(&slice_chars(&p, 2, n));
            assert(rest@ =~= pattern@.skip(2));
            return match path_extension(name) {
                Some(e) => ascii_eq(e.as_str(), rest.as_str()),
                None => if star_dot { false } else { ascii_eq(name, rest.as_str()) },
            };
        }
        let one = |x: char| -> (q: Vec<char>)
            ensures
                q@ == seq![x],
            {
                let q = vec![x];
                assert(q@ =~= seq![x]);
                q
            };
        if chars_start_with(&p, &one('*')) {
            let suffix = string_from(&slice_chars(&p, 1, n));
            assert(suffix@ =~= pattern@.skip(1));
            let ln = to_lowercase(name);
            let ls = to_lowercase(suffix.as_str());
            return str_ends_with(ln.as_str(), ls.as_str());
        }
        if chars_end_with(&p, &one('*')) {
            let prefix = string_from(&slice_chars(&p, 0, n - 1));
            assert(prefix@ =~= pattern@.take(n - 1));
            let ln = to_lowercase(name);
            let lp = to_lowercase(prefix.as_str());
            return str_starts_with(ln.as_str(), lp.as_str());
        }
        let dot_star = vec!['.', '*'];
        assert(dot_star@ =~= seq!['.', '*']);
        if chars_start_with(&p, &one('.')) && chars_contain(&p, &dot_star) {
            let base = trim_start_pair(&trim_start_one(&p, '.'), '*', '.');
            let bs = string_from(&base);
            return match path_extension(name) {
                Some(e) => ascii_eq(e.as_str(), bs.as_str()),
                None => false,
            };
        }
        if chars_start_with(&p, &one('^')) && chars_end_with(&p, &one('$')) {
            assert(n >= 2) by {
                assert(p@.take(1)[0] == '^');
                assert(p@.skip(n - 1)[0] == '$');
            }
            let middle = string_from(&slice_chars(&p, 1, n - 1));
            assert(middle@ =~= pattern@.subrange(1, n - 1));
            return ascii_eq(name, middle.as_str());
        }
        ascii_eq(name, pattern)
    }

    /// The color escape for an entry.
    pub fn for_path(&self, name: &str, is_dir: bool, is_symlink: bool, is_executable: bool) -> (r: String)
        ensures
            r@ == color_for_spec(self@, name@, is_dir, is_symlink, is_executable),
    {
        if is_dir {
            return self.colors.default_dir.clone();
        }
        if is_symlink {
            return self.colors.default_link.clone();
        }
        if is_executable {
            return self.colors.default_executable.clone();
        }
        let mut i: usize = 0;
        while i < self.colors.codes.len()
            invariant
                i <= self.colors.codes.len(),
                !is_dir && !is_symlink && !is_executable,
                first_match(self.colors@.codes, name@, 0) == first_match(self.colors@.codes, name@, i as int),
            decreases self.colors.codes.len() - i,
        {
            assert(self.colors@.codes[i as int] == (self.colors.codes@[i as int].0@, self.colors.codes@[i as int].1@));
            if self.matches_pattern(name, self.colors.codes[i].0.as_str()) {
                assert(first_match(self.colors@.codes, name@, i as int) == Some(self.colors.codes@[i as int].1@));
                return self.colors.codes[i].1.clone();
            }
            i = i + 1;
        }
        self.colors.default_file.clone()
    }
}

} // verus!
