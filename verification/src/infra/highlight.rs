//! Code highlighting: which syntax a file is read with, how its text is cut into lines, and
//! how the styled ranges that syntect computes become preview lines.
use vstd::prelude::*;
use crate::domain::preview::{opt_view, PreviewColor, PreviewLine, PreviewSpan, PreviewSpanView};
use crate::infra::syntax::{candidates_spec, file_name_hint, file_name_hint_spec, normalized_hint, syntax_candidates};
use crate::lexing::{lines_of, text_lines};
use crate::paths::{path_extension, path_extension_spec, path_file_name, path_file_name_spec};
use crate::text::{ascii_lower, chars_of, push_char, string_from, trim_end_newlines, views};
use syntect::easy::HighlightLines;
use syntect::highlighting::{FontStyle, ThemeSet};
use syntect::parsing::SyntaxSet;

verus! {

#[verifier::external_type_specification]
#[verifier::external_body]
pub struct ExSyntaxSet(SyntaxSet);

#[verifier::external_type_specification]
#[verifier::external_body]
pub struct ExThemeSet(ThemeSet);

/// syntect's default syntax definitions and default themes, with the theme chosen for previews.
/// Values are made only by `SyntaxAssets::load`, so they always hold the defaults.
pub struct SyntaxAssets {
    syntaxes: SyntaxSet,
    themes: ThemeSet,
    theme_name: String,
}

/// A run of highlighted text: its text, its theme foreground, and whether it is bold.
#[derive(Debug, Clone)]
pub struct StyledRange {
    pub text: String,
    pub fg: PreviewColor,
    pub bold: bool,
}

pub struct StyledRangeView {
    pub text: Seq<char>,
    pub fg: PreviewColor,
    pub bold: bool,
}

impl View for StyledRange {
    type V = StyledRangeView;

    open spec fn view(&self) -> StyledRangeView {
        StyledRangeView { text: self.text@, fg: self.fg, bold: self.bold }
    }
}

/// Whether the default themes hold one called `name`.
pub uninterp spec fn default_theme_present(name: Seq<char>) -> bool;

/// The name of the default syntax that `SyntaxSet::find_syntax_by_extension` finds for `ext`.
pub uninterp spec fn syntect_extension_syntax(ext: Seq<char>) -> Option<Seq<char>>;

/// Whether the default syntaxes hold one called `name`.
pub uninterp spec fn syntect_has_syntax(name: Seq<char>) -> bool;

/// The name of the default syntax that `SyntaxSet::find_syntax_by_first_line` finds for `line`.
pub uninterp spec fn syntect_first_line_syntax(line: Seq<char>) -> Option<Seq<char>>;

/// What syntect's line highlighter gives for `lines` fed in order, with the default syntax
/// called `syntax` and the default theme called `theme`: per line, its styled ranges or `None`
/// where highlighting that line failed; `None` as a whole where either is not found.
pub uninterp spec fn syntect_ranges(theme: Seq<char>, syntax: Seq<char>, lines: Seq<Seq<char>>) -> Option<Seq<Option<Seq<StyledRangeView>>>>;

/// The view of per-line highlighting results.
pub open spec fn ranges_view(r: Seq<Option<Vec<StyledRange>>>) -> Seq<Option<Seq<StyledRangeView>>> {
    Seq::new(r.len(), |i: int| match r[i] {
        Some(v) => Some(views(v@)),
        None => None,
    })
}

#[verifier::external_body]
fn default_syntaxes() -> SyntaxSet {
    SyntaxSet::load_defaults_newlines()
}

#[verifier::external_body]
fn default_themes() -> ThemeSet {
    ThemeSet::load_defaults()
}

/// Lookup in `ThemeSet::themes`: whether the default themes hold one called `name`.
#[verifier::external_body]
fn theme_present(a: &SyntaxAssets, name: &str) -> (r: bool)
    ensures
        r == default_theme_present(name@),
{
    a.themes.themes.contains_key(name)
}

/// The name of the first default theme in `ThemeSet::themes` order, if any.
#[verifier::external_body]
fn first_theme_name(a: &SyntaxAssets) -> Option<String> {
    a.themes.themes.keys().next().cloned()
}

/// `SyntaxSet::find_syntax_by_extension`, giving the name of the syntax found.
#[verifier::external_body]
fn syntax_for_extension(a: &SyntaxAssets, ext: &str) -> (r: Option<String>)
    ensures
        opt_view(r) == syntect_extension_syntax(ext@),
{
    a.syntaxes.find_syntax_by_extension(ext).map(|s| s.name.clone())
}

/// `SyntaxSet::find_syntax_by_name`: whether a syntax called `name` is there.
#[verifier::external_body]
fn syntax_present(a: &SyntaxAssets, name: &str) -> (r: bool)
    ensures
        r == syntect_has_syntax(name@),
{
    a.syntaxes.find_syntax_by_name(name).is_some()
}

/// `SyntaxSet::find_syntax_by_first_line`, giving the name of the syntax found.
#[verifier::external_body]
fn syntax_for_first_line(a: &SyntaxAssets, line: &str) -> (r: Option<String>)
    ensures
        opt_view(r) == syntect_first_line_syntax(line@),
{
    a.syntaxes.find_syntax_by_first_line(line).map(|s| s.name.clone())
}

/// `HighlightLines::highlight_line` on each of `lines` in turn, with one highlighter made by
/// `HighlightLines::new` for the named syntax and theme; each `(Style, &str)` becomes a
/// `StyledRange`. The highlighter carries its parse state from line to line, so the lines are
/// fed to it here in order; the result has one entry per line. A line's ranges are consecutive
/// slices of it: their texts joined give the line back.
#[verifier::external_body]
fn highlight_ranges(a: &SyntaxAssets, theme: &str, syntax: &str, lines: &Vec<String>) -> (r: Option<Vec<Option<Vec<StyledRange>>>>)
    ensures
        match r {
            Some(v) => v.len() == lines.len() && syntect_ranges(theme@, syntax@, views(lines@)) == Some(ranges_view(v@))
                && forall|i: int| 0 <= i < v.len() ==> (#[trigger] ranges_view(v@)[i] matches Some(rs) ==> ranges_text(rs) == lines@[i]@),
            None => syntect_ranges(theme@, syntax@, views(lines@)) is None,
        },
{
    let mut h = HighlightLines::new(a.syntaxes.find_syntax_by_name(syntax)?, a.themes.themes.get(theme)?);
    Some(lines.iter().map(|line| h.highlight_line(line, &a.syntaxes).ok().map(|ranges| {
        ranges.into_iter().map(|(style, text)| StyledRange {
            text: text.to_string(),
            fg: PreviewColor { r: style.foreground.r, g: style.foreground.g, b: style.foreground.b },
            bold: style.font_style.contains(FontStyle::BOLD),
        }).collect()
    })).collect())
}

/// Themes tried in order for previews.
pub open spec fn theme_candidates() -> Seq<Seq<char>> {
    seq!["base16-mocha.dark"@, "base16-eighties.dark"@, "base16-ocean.dark"@, "Solarized (dark)"@, "InspiredGitHub"@]
}

/// The first of `cands` from `i` on that the default themes hold.
pub open spec fn first_present_theme(cands: Seq<Seq<char>>, i: int) -> Option<Seq<char>>
    decreases cands.len() - i,
{
    if i < 0 || i >= cands.len() {
        None
    } else if default_theme_present(cands[i]) {
        Some(cands[i])
    } else {
        first_present_theme(cands, i + 1)
    }
}

impl SyntaxAssets {
    /// The name of the theme chosen for previews.
    pub closed spec fn theme(&self) -> Seq<char> {
        self.theme_name@
    }

    /// Loads the default syntaxes and themes and picks the preview theme: the first of
    /// `theme_candidates` that is there, else the first theme there is.
    pub fn load() -> (r: SyntaxAssets)
        ensures
            first_present_theme(theme_candidates(), 0) is Some ==> Some(r.theme()) == first_present_theme(theme_candidates(), 0),
    {
        let mut a = SyntaxAssets { syntaxes: default_syntaxes(), themes: default_themes(), theme_name: String::new() };
        let cands = vec!["base16-mocha.dark", "base16-eighties.dark", "base16-ocean.dark", "Solarized (dark)", "InspiredGitHub"];
        assert(views(cands@) =~= theme_candidates());
        let mut i: usize = 0;
        while i < cands.len()
            invariant
                i <= cands.len(),
                views(cands@) == theme_candidates(),
                first_present_theme(theme_candidates(), 0) == first_present_theme(theme_candidates(), i as int),
            decreases cands.len() - i,
        {
            if theme_present(&a, cands[i]) {
                a.theme_name = string_from(&chars_of(cands[i]));
                return a;
            }
            i = i + 1;
        }
        match first_theme_name(&a) {
            Some(n) => a.theme_name = n,
            None => {},
        }
        a
    }
}

/// The first of `exts` from `i` on for which a syntax is found by extension.
pub open spec fn first_extension_hit(exts: Seq<Seq<char>>, i: int) -> Option<Seq<char>>
    decreases exts.len() - i,
{
    if i < 0 || i >= exts.len() {
        None
    } else {
        match syntect_extension_syntax(exts[i]) {
            Some(s) => Some(s),
            None => first_extension_hit(exts, i + 1),
        }
    }
}

/// The first of `names` from `i` on that names a syntax.
pub open spec fn first_name_hit(names: Seq<Seq<char>>, i: int) -> Option<Seq<char>>
    decreases names.len() - i,
{
    if i < 0 || i >= names.len() {
        None
    } else if syntect_has_syntax(names[i]) {
        Some(names[i])
    } else {
        first_name_hit(names, i + 1)
    }
}

/// The syntax a hint selects: by the hint's candidate extensions, then its candidate names,
/// then the normalised hint itself as a name.
pub open spec fn hint_syntax(hint: Seq<char>) -> Option<Seq<char>> {
    let n = normalized_hint(hint);
    let (exts, names) = candidates_spec(n);
    match first_extension_hit(exts, 0) {
        Some(s) => Some(s),
        None => match first_name_hit(names, 0) {
            Some(s) => Some(s),
            None => if syntect_has_syntax(n) { Some(n) } else { None },
        },
    }
}

/// The syntax a file is read with: the explicit hint's, else its file name's hint's, else its
/// extension's, else the one its first line selects, else plain text.
pub open spec fn resolved_syntax(path: Seq<char>, hint: Option<Seq<char>>, content: Seq<char>) -> Seq<char> {
    let by_hint = match hint {
        Some(h) => hint_syntax(h),
        None => None,
    };
    let by_file = match path_file_name_spec(path) {
        Some(f) => match file_name_hint_spec(ascii_lower(f)) {
            Some(h) => hint_syntax(h),
            None => None,
        },
        None => None,
    };
    let by_ext = match path_extension_spec(path) {
        Some(e) => hint_syntax(e),
        None => None,
    };
    let by_first = if text_lines(content).len() > 0 { syntect_first_line_syntax(text_lines(content)[0]) } else { None };
    if by_hint is Some {
        by_hint->0
    } else if by_file is Some {
        by_file->0
    } else if by_ext is Some {
        by_ext->0
    } else if by_first is Some {
        by_first->0
    } else {
        "Plain Text"@
    }
}

fn first_extension(a: &SyntaxAssets, exts: &Vec<String>) -> (r: Option<String>)
    ensures
        opt_view(r) == first_extension_hit(views(exts@), 0),
{
    let mut i: usize = 0;
    while i < exts.len()
        invariant
            i <= exts.len(),
            first_extension_hit(views(exts@), 0) == first_extension_hit(views(exts@), i as int),
        decreases exts.len() - i,
    {
        let hit = syntax_for_extension(a, exts[i].as_str());
        if hit.is_some() {
            return hit;
        }
        i = i + 1;
    }
    None
}

fn first_name(a: &SyntaxAssets, names: &Vec<String>) -> (r: Option<String>)
    ensures
        opt_view(r) == first_name_hit(views(names@), 0),
{
    let mut i: usize = 0;
    while i < names.len()
        invariant
            i <= names.len(),
            first_name_hit(views(names@), 0) == first_name_hit(views(names@), i as int),
        decreases names.len() - i,
    {
        if syntax_present(a, names[i].as_str()) {
            return Some(string_from(&chars_of(names[i].as_str())));
        }
        i = i + 1;
    }
    None
}

/// The syntax a hint selects, if any.
pub fn find_syntax_from_hint(a: &SyntaxAssets, hint: &str) -> (r: Option<String>)
    ensures
        opt_view(r) == hint_syntax(hint@),
{
    let (exts, names, normalized) = syntax_candidates(hint);
    let by_ext = first_extension(a, &exts);
    if by_ext.is_some() {
        return by_ext;
    }
    let by_name = first_name(a, &names);
    if by_name.is_some() {
        return by_name;
    }
    if syntax_present(a, normalized.as_str()) {
        Some(normalized)
    } else {
        None
    }
}

/// The syntax the file at `path` with this content is read with.
pub fn resolve_syntax(a: &SyntaxAssets, path: &str, hint: Option<&str>, content: &str) -> (r: String)
    ensures
        r@ == resolved_syntax(path@, match hint { Some(h) => Some(h@), None => None }, content@),
{
    match hint {
        Some(h) => match find_syntax_from_hint(a, h) {
            Some(s) => return s,
            None => {},
        },
        None => {},
    }
    match path_file_name(path) {
        Some(f) => match file_name_hint(f.as_str()) {
            Some(h) => match find_syntax_from_hint(a, h) {
                Some(s) => return s,
                None => {},
            },
            None => {},
        },
        None => {},
    }
    match path_extension(path) {
        Some(e) => match find_syntax_from_hint(a, e.as_str()) {
            Some(s) => return s,
            None => {},
        },
        None => {},
    }
    let ls = lines_of(content);
    if ls.len() > 0 {
        match syntax_for_first_line(a, ls[0].as_str()) {
            Some(s) => return s,
            None => {},
        }
    }
    string_from(&chars_of("Plain Text"))
}

/// Cutting text into lines that keep their `\n`: the finished lines and the one being read.
pub open spec fn pieces_state(s: Seq<char>) -> (Seq<Seq<char>>, Seq<char>)
    decreases s.len(),
{
    if s.len() == 0 {
        (Seq::empty(), Seq::empty())
    } else {
        let (done, cur) = pieces_state(s.drop_last());
        let cur2 = cur.push(s.last());
        if s.last() == '\n' {
            (done.push(cur2), Seq::empty())
        } else {
            (done, cur2)
        }
    }
}

/// The lines of `s`, each with its `\n` where it has one (syntect's `LinesWithEndings`).
pub open spec fn line_pieces(s: Seq<char>) -> Seq<Seq<char>> {
    let (done, cur) = pieces_state(s);
    if cur.len() > 0 { done.push(cur) } else { done }
}

/// The first `max_lines` lines of `s`, each with its `\n`.
pub open spec fn first_pieces(s: Seq<char>, max_lines: nat) -> Seq<Seq<char>> {
    let p = line_pieces(s);
    p.take(if p.len() < max_lines { p.len() as int } else { max_lines as int })
}

/// The first `max_lines` lines of `content`, each with its `\n`.
pub fn lines_with_endings(content: &str, max_lines: usize) -> (r: Vec<String>)
    ensures
        views(r@) == first_pieces(content@, max_lines as nat),
{
    let chars = chars_of(content);
    let mut done: Vec<String> = Vec::new();
    let mut cur = String::new();
    let mut i: usize = 0;
    assert(chars@.take(0) =~= Seq::<char>::empty());
    while i < chars.len()
        invariant
            i <= chars.len(),
            chars@ == content@,
            (views(done@), cur@) == pieces_state(chars@.take(i as int)),
        decreases chars.len() - i,
    {
        let c = chars[i];
        assert(chars@.take(i + 1).drop_last() =~= chars@.take(i as int));
        assert(chars@.take(i + 1).last() == c);
        push_char(&mut cur, c);
        if c == '\n' {
            let ghost before = done@;
            done.push(cur);
            assert(views(done@) =~= views(before).push(done@.last()@));
            cur = String::new();
            assert(cur@ =~= Seq::<char>::empty());
        }
        i = i + 1;
    }
    assert(chars@.take(chars.len() as int) =~= chars@);
    if chars_of(cur.as_str()).len() > 0 {
        let ghost before = done@;
        done.push(cur);
        assert(views(done@) =~= views(before).push(done@.last()@));
    }
    let n = if done.len() < max_lines { done.len() } else { max_lines };
    let mut r: Vec<String> = Vec::new();
    let mut k: usize = 0;
    while k < n
        invariant
            k <= n <= done.len(),
            views(r@) == views(done@).take(k as int),
        decreases n - k,
    {
        let ghost before = r@;
        r.push(string_from(&chars_of(done[k].as_str())));
        assert(views(r@) =~= views(before).push(done@[k as int]@));
        assert(views(done@).take(k + 1) =~= views(done@).take(k as int).push(done@[k as int]@));
        k = k + 1;
    }
    r
}

/// The spans of a line's ranges: each range's text without trailing `\r`/`\n`, with its
/// color and weight; ranges left empty are dropped.
pub open spec fn range_spans(rs: Seq<StyledRangeView>) -> Seq<PreviewSpanView>
    decreases rs.len(),
{
    if rs.len() == 0 {
        Seq::empty()
    } else {
        let prev = range_spans(rs.drop_last());
        let t = trim_end_newlines(rs.last().text);
        if t.len() == 0 {
            prev
        } else {
            prev.push(PreviewSpanView { text: t, fg: Some(rs.last().fg), bold: rs.last().bold, dim: false })
        }
    }
}

/// A preview line from a raw line and its highlighting: the ranges' spans, or the line
/// without trailing `\r`/`\n` as one plain span where highlighting failed.
pub open spec fn highlighted_line(line: Seq<char>, ranges: Option<Seq<StyledRangeView>>) -> Seq<PreviewSpanView> {
    match ranges {
        Some(rs) => range_spans(rs),
        None => seq![PreviewSpanView { text: trim_end_newlines(line), fg: None, bold: false, dim: false }],
    }
}

fn trimmed_string(s: &str) -> (r: String)
    ensures
        r@ == trim_end_newlines(s@),
{
    let v = chars_of(s);
    let mut n: usize = v.len();
    assert(v@.take(n as int) =~= v@);
    while n > 0 && (v[n - 1] == '\r' || v[n - 1] == '\n')
        invariant
            n <= v.len(),
            trim_end_newlines(v@) == trim_end_newlines(v@.take(n as int)),
        decreases n,
    {
        assert(v@.take(n as int).drop_last() =~= v@.take(n - 1));
        n = n - 1;
    }
    let mut w: Vec<char> = Vec::new();
    let mut k: usize = 0;
    while k < n
        invariant
            k <= n <= v.len(),
            w@ == v@.take(k as int),
        decreases n - k,
    {
        w.push(v[k]);
        assert(v@.take(k + 1) =~= v@.take(k as int).push(v@[k as int]));
        k = k + 1;
    }
    string_from(&w)
}

fn line_from_ranges(line: &str, ranges: &Option<Vec<StyledRange>>) -> (r: PreviewLine)
    ensures
        r@ == highlighted_line(line@, match ranges { Some(v) => Some(views(v@)), None => None }),
{
    let mut spans: Vec<PreviewSpan> = Vec::new();
    match ranges {
        Some(rs) => {
            let mut i: usize = 0;
            assert(views(rs@).take(0) =~= Seq::<StyledRangeView>::empty());
            assert(views(spans@) =~= Seq::<PreviewSpanView>::empty());
            while i < rs.len()
                invariant
                    i <= rs.len(),
                    views(spans@) == range_spans(views(rs@).take(i as int)),
                decreases rs.len() - i,
            {
                assert(views(rs@).take(i + 1).drop_last() =~= views(rs@).take(i as int));
                assert(views(rs@).take(i + 1).last() == rs@[i as int]@);
                let t = trimmed_string(rs[i].text.as_str());
                if chars_of(t.as_str()).len() > 0 {
                    let ghost before = spans@;
                    spans.push(PreviewSpan { text: t, fg: Some(rs[i].fg), bold: rs[i].bold, dim: false });
                    assert(views(spans@) =~= views(before).push(spans@.last()@));
                }
                i = i + 1;
            }
            assert(views(rs@).take(rs.len() as int) =~= views(rs@));
        },
        None => {
            spans.push(PreviewSpan { text: trimmed_string(line), fg: None, bold: false, dim: false });
            assert(views(spans@) =~= seq![spans@[0]@]);
        },
    }
    PreviewLine { spans }
}

/// Preview lines from raw lines and their highlighting, one per line.
pub fn highlighted_lines(lines: &Vec<String>, ranges: &Vec<Option<Vec<StyledRange>>>) -> (r: Vec<PreviewLine>)
    requires
        lines.len() == ranges.len(),
    ensures
        r@.len() == lines@.len(),
        forall|i: int| 0 <= i < r@.len() ==> #[trigger] r@[i]@ == highlighted_line(lines@[i]@, ranges_view(ranges@)[i]),
{
    let mut r: Vec<PreviewLine> = Vec::new();
    let mut i: usize = 0;
    while i < lines.len()
        invariant
            i <= lines.len() == ranges.len(),
            r@.len() == i,
            forall|j: int| 0 <= j < i ==> #[trigger] r@[j]@ == highlighted_line(lines@[j]@, ranges_view(ranges@)[j]),
        decreases lines.len() - i,
    {
        let l = line_from_ranges(lines[i].as_str(), &ranges[i]);
        r.push(l);
        i = i + 1;
    }
    r
}

/// The texts of ranges joined.
pub open spec fn ranges_text(rs: Seq<StyledRangeView>) -> Seq<char>
    decreases rs.len(),
{
    if rs.len() == 0 {
        Seq::empty()
    } else {
        ranges_text(rs.drop_last()) + rs.last().text
    }
}

/// The texts of spans joined.
pub open spec fn spans_text(sp: Seq<PreviewSpanView>) -> Seq<char>
    decreases sp.len(),
{
    if sp.len() == 0 {
        Seq::empty()
    } else {
        spans_text(sp.drop_last()) + sp.last().text
    }
}

pub open spec fn is_line_break(c: char) -> bool {
    c == '\r' || c == '\n'
}

/// No `\n` but possibly the last character.
pub open spec fn newline_only_last(p: Seq<char>) -> bool {
    forall|k: int| 0 <= k < p.len() - 1 ==> #[trigger] p[k] != '\n'
}

/// Every `\r` is directly followed by `\n`.
pub open spec fn cr_before_lf(s: Seq<char>) -> bool {
    forall|k: int| 0 <= k < s.len() && #[trigger] s[k] == '\r' ==> k + 1 < s.len() && s[k + 1] == '\n'
}

/// A `\r` only as the next to last character, before a final `\n`.
pub open spec fn cr_only_in_ending(p: Seq<char>) -> bool {
    forall|j: int| 0 <= j < p.len() && #[trigger] p[j] == '\r' ==> j == p.len() - 2 && p[p.len() - 1] == '\n'
}

/// No span text holds `c`.
pub open spec fn spans_free_of(sp: Seq<PreviewSpanView>, c: char) -> bool {
    forall|j: int| 0 <= j < sp.len() ==> !(#[trigger] sp[j]).text.contains(c)
}

proof fn lemma_trim_split(p: Seq<char>)
    ensures
        trim_end_newlines(p).len() <= p.len(),
        trim_end_newlines(p) == p.take(trim_end_newlines(p).len() as int),
        forall|j: int| trim_end_newlines(p).len() <= j < p.len() ==> is_line_break(#[trigger] p[j]),
        trim_end_newlines(p).len() == 0 || !is_line_break(trim_end_newlines(p).last()),
    decreases p.len(),
{
    if p.len() > 0 && (p.last() == '\r' || p.last() == '\n') {
        lemma_trim_split(p.drop_last());
        assert(p.drop_last().take(trim_end_newlines(p).len() as int) =~= p.take(trim_end_newlines(p).len() as int));
        assert forall|j: int| trim_end_newlines(p).len() <= j < p.len() implies is_line_break(#[trigger] p[j]) by {
            if j < p.len() - 1 {
                assert(p[j] == p.drop_last()[j]);
            }
        }
    } else {
        assert(p.take(p.len() as int) =~= p);
    }
}

proof fn lemma_trim_concat(x: Seq<char>, t: Seq<char>)
    requires
        forall|j: int| 0 <= j < t.len() ==> is_line_break(#[trigger] t[j]),
        x.len() == 0 || !is_line_break(x.last()),
    ensures
        trim_end_newlines(x + t) == x,
    decreases t.len(),
{
    if t.len() == 0 {
        assert(x + t =~= x);
    } else {
        assert((x + t).drop_last() =~= x + t.drop_last());
        assert((x + t).last() == t.last());
        lemma_trim_concat(x, t.drop_last());
    }
}

/// Cutting text into lines keeps `\n` at the ends of lines, and with every `\r` before a `\n`,
/// keeps `\r` in line endings.
proof fn lemma_pieces_state(s: Seq<char>, n: int)
    requires
        0 <= n <= s.len(),
    ensures
        forall|k: int| 0 <= k < pieces_state(s.take(n)).0.len() ==> newline_only_last(#[trigger] pieces_state(s.take(n)).0[k]),
        !pieces_state(s.take(n)).1.contains('\n'),
        cr_before_lf(s) ==> forall|k: int| 0 <= k < pieces_state(s.take(n)).0.len() ==> cr_only_in_ending(#[trigger] pieces_state(s.take(n)).0[k]),
        cr_before_lf(s) ==> forall|j: int| 0 <= j < pieces_state(s.take(n)).1.len() && #[trigger] pieces_state(s.take(n)).1[j] == '\r'
            ==> j == pieces_state(s.take(n)).1.len() - 1 && n < s.len() && s[n] == '\n',
    decreases n,
{
    if n == 0 {
        assert(s.take(0) =~= Seq::<char>::empty());
    } else {
        lemma_pieces_state(s, n - 1);
        assert(s.take(n).drop_last() =~= s.take(n - 1));
        let (done, cur) = pieces_state(s.take(n - 1));
        let c = s[n - 1];
        assert(s.take(n).last() == c);
        let cur2 = cur.push(c);
        if c == '\n' {
            assert forall|j: int| 0 <= j < cur2.len() - 1 implies #[trigger] cur2[j] != '\n' by {
                assert(cur2[j] == cur[j]);
            }
            if cr_before_lf(s) {
                assert forall|j: int| 0 <= j < cur2.len() && #[trigger] cur2[j] == '\r' implies j == cur2.len() - 2 && cur2[cur2.len() - 1] == '\n' by {
                    if j < cur.len() {
                        assert(cur[j] == '\r');
                    }
                }
            }
            let done2 = done.push(cur2);
            assert forall|k: int| 0 <= k < done2.len() implies newline_only_last(#[trigger] done2[k]) by {
                if k < done.len() {
                    assert(done2[k] == done[k]);
                }
            }
            if cr_before_lf(s) {
                assert forall|k: int| 0 <= k < done2.len() implies cr_only_in_ending(#[trigger] done2[k]) by {
                    if k < done.len() {
                        assert(done2[k] == done[k]);
                    }
                }
            }
            assert(!Seq::<char>::empty().contains('\n'));
        } else {
            assert(!cur2.contains('\n')) by {
                if cur2.contains('\n') {
                    let j = choose|j: int| 0 <= j < cur2.len() && cur2[j] == '\n';
                    if j < cur.len() {
                        assert(cur[j] == '\n');
                    }
                }
            }
            if cr_before_lf(s) {
                assert forall|j: int| 0 <= j < cur2.len() && #[trigger] cur2[j] == '\r' implies j == cur2.len() - 1 && n < s.len() && s[n] == '\n' by {
                    if j < cur.len() {
                        assert(cur[j] == '\r');
                    } else {
                        assert(s[n - 1] == '\r');
                    }
                }
            }
        }
    }
}

/// The lines of text cut by `first_pieces` have `\n` only at their ends, and, with every `\r`
/// before a `\n`, `\r` only in their `\r\n` endings.
proof fn lemma_pieces(s: Seq<char>, max_lines: nat)
    ensures
        forall|i: int| 0 <= i < first_pieces(s, max_lines).len() ==> newline_only_last(#[trigger] first_pieces(s, max_lines)[i]),
        cr_before_lf(s) ==> forall|i: int| 0 <= i < first_pieces(s, max_lines).len() ==> cr_only_in_ending(#[trigger] first_pieces(s, max_lines)[i]),
{
    lemma_pieces_state(s, s.len() as int);
    assert(s.take(s.len() as int) =~= s);
    let (done, cur) = pieces_state(s);
    let all = line_pieces(s);
    assert forall|i: int| 0 <= i < all.len() implies newline_only_last(#[trigger] all[i]) by {
        if i < done.len() {
            assert(all[i] == done[i]);
        } else {
            assert(all[i] == cur);
            assert forall|k: int| 0 <= k < cur.len() - 1 implies #[trigger] cur[k] != '\n' by {
                if cur[k] == '\n' {
                    assert(cur.contains('\n'));
                }
            }
        }
    }
    if cr_before_lf(s) {
        assert forall|i: int| 0 <= i < all.len() implies cr_only_in_ending(#[trigger] all[i]) by {
            if i < done.len() {
                assert(all[i] == done[i]);
            } else {
                assert(all[i] == cur);
            }
        }
    }
    let p = first_pieces(s, max_lines);
    assert forall|i: int| 0 <= i < p.len() implies newline_only_last(#[trigger] p[i]) by {
        assert(p[i] == all[i]);
    }
    if cr_before_lf(s) {
        assert forall|i: int| 0 <= i < p.len() implies cr_only_in_ending(#[trigger] p[i]) by {
            assert(p[i] == all[i]);
        }
    }
}

/// Ranges that join to a text, followed by line breaks only, give spans that join to that text.
proof fn lemma_spans_join(rs: Seq<StyledRangeView>, b: Seq<char>, t: Seq<char>)
    requires
        ranges_text(rs) == b + t,
        forall|j: int| 0 <= j < b.len() ==> !is_line_break(#[trigger] b[j]),
        forall|j: int| 0 <= j < t.len() ==> is_line_break(#[trigger] t[j]),
    ensures
        spans_text(range_spans(rs)) == b,
    decreases rs.len(),
{
    if rs.len() == 0 {
        assert(b.len() == 0) by {
            assert((b + t).len() == 0);
        }
        assert(b =~= Seq::<char>::empty());
    } else {
        let x = rs.last().text;
        let prev = ranges_text(rs.drop_last());
        assert(prev + x == b + t);
        if x.len() <= t.len() {
            let t1 = t.take(t.len() - x.len());
            assert(prev =~= b + t1) by {
                assert(prev =~= (b + t).take(prev.len() as int));
            }
            assert(x =~= t.skip(t.len() - x.len())) by {
                assert(x =~= (b + t).skip(prev.len() as int));
            }
            lemma_trim_concat(Seq::<char>::empty(), x);
            assert(Seq::<char>::empty() + x =~= x);
            lemma_spans_join(rs.drop_last(), b, t1);
        } else {
            let k = x.len() - t.len();
            let b1 = b.take(b.len() - k);
            let b2 = b.skip(b.len() - k);
            assert(prev =~= b1) by {
                assert(prev =~= (b + t).take(prev.len() as int));
            }
            assert(x =~= b2 + t) by {
                assert(x =~= (b + t).skip(prev.len() as int));
            }
            assert(b2.last() == b[b.len() - 1]);
            lemma_trim_concat(b2, t);
            assert(b1 + Seq::<char>::empty() =~= b1);
            lemma_spans_join(rs.drop_last(), b1, Seq::<char>::empty());
            let sp = range_spans(rs);
            assert(sp.drop_last() == range_spans(rs.drop_last()));
            assert(spans_text(sp) == spans_text(sp.drop_last()) + b2);
            assert(b1 + b2 =~= b);
        }
    }
}

/// Ranges that join to a text with `\n` only at its end give spans without `\n`.
proof fn lemma_spans_no_newline(rs: Seq<StyledRangeView>, q: Seq<char>)
    requires
        ranges_text(rs) == q,
        newline_only_last(q),
    ensures
        spans_free_of(range_spans(rs), '\n'),
    decreases rs.len(),
{
    if rs.len() > 0 {
        let x = rs.last().text;
        let prev = ranges_text(rs.drop_last());
        assert(prev + x == q);
        assert(prev =~= q.take(prev.len() as int));
        assert forall|k: int| 0 <= k < prev.len() - 1 implies #[trigger] prev[k] != '\n' by {
            assert(prev[k] == q[k]);
        }
        lemma_spans_no_newline(rs.drop_last(), prev);
        let tx = trim_end_newlines(x);
        lemma_trim_split(x);
        assert(!tx.contains('\n')) by {
            if tx.contains('\n') {
                let j = choose|j: int| 0 <= j < tx.len() && tx[j] == '\n';
                assert(tx[j] == x[j]);
                assert(x[j] == q[prev.len() + j]);
                if j < x.len() - 1 {
                } else {
                    assert(tx.last() == '\n');
                }
            }
        }
        let sp = range_spans(rs);
        assert forall|j: int| 0 <= j < sp.len() implies !(#[trigger] sp[j]).text.contains('\n') by {
            if j < range_spans(rs.drop_last()).len() {
                assert(sp[j] == range_spans(rs.drop_last())[j]);
            }
        }
    }
}

/// Spans that join to a text without `c` hold no `c`.
proof fn lemma_spans_within(sp: Seq<PreviewSpanView>, b: Seq<char>, c: char)
    requires
        spans_text(sp) == b,
        !b.contains(c),
    ensures
        spans_free_of(sp, c),
    decreases sp.len(),
{
    if sp.len() > 0 {
        let prev = spans_text(sp.drop_last());
        let x = sp.last().text;
        assert(prev + x == b);
        assert(!prev.contains(c)) by {
            if prev.contains(c) {
                let j = choose|j: int| 0 <= j < prev.len() && prev[j] == c;
                assert(b[j] == c);
            }
        }
        assert(!x.contains(c)) by {
            if x.contains(c) {
                let j = choose|j: int| 0 <= j < x.len() && x[j] == c;
                assert(b[prev.len() + j] == c);
            }
        }
        lemma_spans_within(sp.drop_last(), prev, c);
        assert forall|j: int| 0 <= j < sp.len() implies !(#[trigger] sp[j]).text.contains(c) by {
            if j < sp.len() - 1 {
                assert(sp[j] == sp.drop_last()[j]);
            }
        }
    }
}

/// What a highlighted line holds of its source line: no `\n` in any span; with `\r` only in a
/// `\r\n` ending, the spans join to the line without its ending and hold no `\r` either.
proof fn lemma_line_text(piece: Seq<char>, ranges: Option<Seq<StyledRangeView>>)
    requires
        ranges matches Some(rs) ==> ranges_text(rs) == piece,
        newline_only_last(piece),
    ensures
        spans_free_of(highlighted_line(piece, ranges), '\n'),
        cr_only_in_ending(piece) ==> spans_text(highlighted_line(piece, ranges)) == trim_end_newlines(piece),
        cr_only_in_ending(piece) ==> spans_free_of(highlighted_line(piece, ranges), '\r'),
{
    let b = trim_end_newlines(piece);
    lemma_trim_split(piece);
    let t = piece.skip(b.len() as int);
    assert(piece =~= b + t);
    assert(!b.contains('\n')) by {
        if b.contains('\n') {
            let j = choose|j: int| 0 <= j < b.len() && b[j] == '\n';
            assert(piece[j] == '\n');
            if j == piece.len() - 1 {
                assert(b.len() == piece.len());
                assert(b.last() == '\n');
            }
        }
    }
    let spans = highlighted_line(piece, ranges);
    match ranges {
        Some(rs) => {
            lemma_spans_no_newline(rs, piece);
        },
        None => {
            assert(spans[0].text == b);
            assert forall|j: int| 0 <= j < spans.len() implies !(#[trigger] spans[j]).text.contains('\n') by {}
        },
    }
    if cr_only_in_ending(piece) {
        assert forall|j: int| 0 <= j < b.len() implies !is_line_break(#[trigger] b[j]) by {
            assert(b[j] == piece[j]);
            if b[j] == '\n' {
                assert(b.contains('\n'));
            }
            if b[j] == '\r' {
                assert(j == piece.len() - 2);
                assert(piece[piece.len() - 1] == '\n');
                if b.len() == piece.len() {
                    assert(b.last() == '\n');
                } else {
                    assert(b.len() == piece.len() - 1);
                    assert(b.last() == '\r');
                }
            }
        }
        assert forall|j: int| 0 <= j < t.len() implies is_line_break(#[trigger] t[j]) by {
            assert(t[j] == piece[b.len() + j]);
        }
        match ranges {
            Some(rs) => {
                lemma_spans_join(rs, b, t);
            },
            None => {
                assert(spans.drop_last() =~= Seq::<PreviewSpanView>::empty());
                assert(spans_text(Seq::<PreviewSpanView>::empty()) == Seq::<char>::empty());
                assert(spans_text(spans) == spans_text(spans.drop_last()) + spans.last().text);
                assert(spans.last().text == b);
                assert(spans_text(spans) =~= b);
            },
        }
        assert(!b.contains('\r')) by {
            if b.contains('\r') {
                let j = choose|j: int| 0 <= j < b.len() && b[j] == '\r';
                assert(!is_line_break(b[j]));
            }
        }
        lemma_spans_within(spans, b, '\r');
    }
}

/// The highlighted preview of `content`: its first `max_lines` lines, each the spans of its
/// highlighting with the resolved syntax and the preview theme, or plain where that failed.
pub open spec fn highlight_spec(theme: Seq<char>, path: Seq<char>, hint: Option<Seq<char>>, content: Seq<char>, max_lines: nat) -> Seq<Seq<PreviewSpanView>> {
    let pieces = first_pieces(content, max_lines);
    let syntax = resolved_syntax(path, hint, content);
    match syntect_ranges(theme, syntax, pieces) {
        Some(rs) => Seq::new(pieces.len(), |i: int| highlighted_line(pieces[i], rs[i])),
        None => Seq::new(pieces.len(), |i: int| highlighted_line(pieces[i], None)),
    }
}

/// Highlights the first `max_lines` lines of the file at `path`, with an optional syntax hint.
/// Spans never hold `\n`; where every `\r` in the content comes before a `\n`, each line's
/// spans join to exactly that line without its ending, and hold no `\r`.
pub fn highlight_code_with_hint(a: &SyntaxAssets, path: &str, hint: Option<&str>, content: &str, max_lines: usize) -> (r: Vec<PreviewLine>)
    ensures
        views(r@) == highlight_spec(a.theme(), path@, match hint { Some(h) => Some(h@), None => None }, content@, max_lines as nat),
        r@.len() == first_pieces(content@, max_lines as nat).len(),
        forall|i: int| 0 <= i < r@.len() ==> spans_free_of(#[trigger] r@[i]@, '\n'),
        cr_before_lf(content@) ==> forall|i: int| 0 <= i < r@.len()
            ==> spans_text(#[trigger] r@[i]@) == trim_end_newlines(first_pieces(content@, max_lines as nat)[i]),
        cr_before_lf(content@) ==> forall|i: int| 0 <= i < r@.len() ==> spans_free_of(#[trigger] r@[i]@, '\r'),
{
    let syntax = resolve_syntax(a, path, hint, content);
    let lines = lines_with_endings(content, max_lines);
    let ranges = match highlight_ranges(a, a.theme_name.as_str(), syntax.as_str(), &lines) {
        Some(rs) => rs,
        None => {
            let mut nones: Vec<Option<Vec<StyledRange>>> = Vec::new();
            let mut i: usize = 0;
            while i < lines.len()
                invariant
                    i <= lines.len(),
                    nones@.len() == i,
                    forall|j: int| 0 <= j < i ==> nones@[j] is None,
                decreases lines.len() - i,
            {
                nones.push(None);
                i = i + 1;
            }
            nones
        },
    };
    let r = highlighted_lines(&lines, &ranges);
    proof {
        let ghost hint_v = match hint { Some(h) => Some(h@), None => None };
        let ghost spec = highlight_spec(a.theme(), path@, hint_v, content@, max_lines as nat);
        assert(views(r@).len() == spec.len());
        assert forall|i: int| 0 <= i < spec.len() implies #[trigger] views(r@)[i] == spec[i] by {
            assert(views(r@)[i] == r@[i]@);
        }
        assert(views(r@) =~= spec);
        let pieces = first_pieces(content@, max_lines as nat);
        lemma_pieces(content@, max_lines as nat);
        assert forall|i: int| 0 <= i < r@.len() implies spans_free_of(#[trigger] r@[i]@, '\n')
            && (cr_before_lf(content@) ==> spans_text(r@[i]@) == trim_end_newlines(pieces[i]) && spans_free_of(r@[i]@, '\r')) by {
            assert(r@[i]@ == spec[i]);
            assert(lines@[i]@ == pieces[i]);
            assert(ranges_view(ranges@)[i] matches Some(rs) ==> ranges_text(rs) == pieces[i]);
            lemma_line_text(pieces[i], ranges_view(ranges@)[i]);
        }
    }
    r
}

/// Highlights the first `max_lines` lines of the file at `path`.
pub fn highlight_code(a: &SyntaxAssets, path: &str, content: &str, max_lines: usize) -> (r: Vec<PreviewLine>)
    ensures
        views(r@) == highlight_spec(a.theme(), path@, None, content@, max_lines as nat),
        r@.len() == first_pieces(content@, max_lines as nat).len(),
        forall|i: int| 0 <= i < r@.len() ==> spans_free_of(#[trigger] r@[i]@, '\n'),
        cr_before_lf(content@) ==> forall|i: int| 0 <= i < r@.len()
            ==> spans_text(#[trigger] r@[i]@) == trim_end_newlines(first_pieces(content@, max_lines as nat)[i]),
        cr_before_lf(content@) ==> forall|i: int| 0 <= i < r@.len() ==> spans_free_of(#[trigger] r@[i]@, '\r'),
{
    highlight_code_with_hint(a, path, None, content, max_lines)
}

} // verus!
