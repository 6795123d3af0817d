//! Markdown shown as styled preview lines; fenced code is left for the highlighter.
use vstd::prelude::*;
use crate::domain::preview::{plain_span, PreviewColor, PreviewLine, PreviewSpan, PreviewSpanView};
use crate::lexing::{is_digit, lines_of, text_lines};
use crate::text::strip_line_breaks;
use crate::infra::highlight::spans_text;
use crate::text::{
    append_str, chars_of, chars_start_with, push_char, slice_chars, starts_with, string_from, trim,
    trim_end_newlines, trim_start, trim_start_ws, trim_ws, views,
};

verus! {

pub open spec fn rgb(r: u8, g: u8, b: u8) -> PreviewColor {
    PreviewColor { r, g, b }
}

fn color(r: u8, g: u8, b: u8) -> (c: PreviewColor)
    ensures
        c == rgb(r, g, b),
{
    PreviewColor { r, g, b }
}

/// The style of a piece of inline text; code between backticks is bold and yellow.
pub open spec fn inline_span(text: Seq<char>, code: bool, fg: Option<PreviewColor>, bold: bool, dim: bool) -> PreviewSpanView {
    PreviewSpanView {
        text,
        fg: if code { Some(rgb(255, 214, 102)) } else { fg },
        bold: if code { true } else { bold },
        dim,
    }
}

/// Reading state of inline text: spans so far, the piece being read, inside code or not.
pub open spec fn inline_state(t: Seq<char>, fg: Option<PreviewColor>, bold: bool, dim: bool) -> (Seq<PreviewSpanView>, Seq<char>, bool)
    decreases t.len(),
{
    if t.len() == 0 {
        (Seq::empty(), Seq::empty(), false)
    } else {
        let (spans, cur, code) = inline_state(t.drop_last(), fg, bold, dim);
        if t.last() == '`' {
            (if cur.len() > 0 { spans.push(inline_span(cur, code, fg, bold, dim)) } else { spans }, Seq::empty(), !code)
        } else {
            (spans, cur.push(t.last()), code)
        }
    }
}

/// The spans of inline text: the non-empty pieces between backticks, every other one code;
/// a single empty span where there is none.
pub open spec fn inline_spans_spec(t: Seq<char>, fg: Option<PreviewColor>, bold: bool, dim: bool) -> Seq<PreviewSpanView> {
    let (spans, cur, code) = inline_state(t, fg, bold, dim);
    let all = if cur.len() > 0 { spans.push(inline_span(cur, code, fg, bold, dim)) } else { spans };
    if all.len() == 0 {
        seq![PreviewSpanView { text: Seq::empty(), fg, bold, dim }]
    } else {
        all
    }
}

/// Splits inline text into spans at backticks.
pub fn inline_spans(text: &str, fg: Option<PreviewColor>, bold: bool, dim: bool) -> (r: Vec<PreviewSpan>)
    ensures
        views(r@) == inline_spans_spec(text@, fg, bold, dim),
{
    let chars = chars_of(text);
    let mut spans: Vec<PreviewSpan> = Vec::new();
    let mut cur: Vec<char> = Vec::new();
    let mut code = false;
    let mut i: usize = 0;
    assert(views(spans@) =~= Seq::<PreviewSpanView>::empty());
    while i < chars.len()
        invariant
            i <= chars.len(),
            chars@ == text@,
            (views(spans@), cur@, code) == inline_state(chars@.take(i as int), fg, bold, dim),
        decreases chars.len() - i,
    {
        let c = chars[i];
        assert(chars@.take(i + 1).drop_last() =~= chars@.take(i as int));
        if c == '`' {
            if cur.len() > 0 {
                let piece = string_from(&cur);
                let span = if code {
                    PreviewSpan { text: piece, fg: Some(color(255, 214, 102)), bold: true, dim }
                } else {
                    PreviewSpan { text: piece, fg, bold, dim }
                };
                let ghost before = spans@;
                spans.push(span);
                assert(views(spans@) =~= views(before).push(inline_span(cur@, code, fg, bold, dim)));
            }
            cur = Vec::new();
            code = !code;
        } else {
            cur.push(c);
        }
        i = i + 1;
    }
    assert(chars@.take(chars.len() as int) =~= chars@);
    if cur.len() > 0 {
        let piece = string_from(&cur);
        let span = if code {
            PreviewSpan { text: piece, fg: Some(color(255, 214, 102)), bold: true, dim }
        } else {
            PreviewSpan { text: piece, fg, bold, dim }
        };
        let ghost before = spans@;
        spans.push(span);
        assert(views(spans@) =~= views(before).push(inline_span(cur@, code, fg, bold, dim)));
    }
    if spans.len() == 0 {
        spans.push(PreviewSpan { text: String::new(), fg, bold, dim });
        assert(views(spans@) =~= seq![PreviewSpanView { text: Seq::empty(), fg, bold, dim }]);
    }
    spans
}


/// The number of leading ASCII digits.
pub open spec fn digit_run(t: Seq<char>) -> nat
    decreases t.len(),
{
    if t.len() > 0 && is_digit(t[0]) {
        1 + digit_run(t.drop_first())
    } else {
        0
    }
}

/// The length of an ordered-list marker (`12.` or `12)` followed by a space), if `t` starts
/// with one.
pub open spec fn ordered_marker_len(t: Seq<char>) -> Option<nat> {
    let d = digit_run(t);
    if d >= 1 && t.len() >= d + 2 && (t[d as int] == '.' || t[d as int] == ')') && t[d + 1int] == ' ' {
        Some(d + 1)
    } else {
        None
    }
}

proof fn lemma_digit_run(t: Seq<char>, i: int)
    requires
        0 <= i <= t.len(),
        forall|j: int| 0 <= j < i ==> is_digit(#[trigger] t[j]),
        i == t.len() || !is_digit(t[i]),
    ensures
        digit_run(t) == i,
    decreases i,
{
    if i > 0 {
        lemma_digit_run(t.drop_first(), i - 1);
    }
}

/// The length of the ordered-list marker at the start of `t`, if any.
pub fn ordered_list_marker_len(t: &Vec<char>) -> (r: Option<usize>)
    ensures
        match r {
            Some(k) => ordered_marker_len(t@) == Some(k as nat),
            None => ordered_marker_len(t@) is None,
        },
{
    let mut i: usize = 0;
    while i < t.len() && '0' <= t[i] && t[i] <= '9'
        invariant
            i <= t.len(),
            forall|j: int| 0 <= j < i ==> is_digit(#[trigger] t@[j]),
        decreases t.len() - i,
    {
        i = i + 1;
    }
    proof {
        lemma_digit_run(t@, i as int);
    }
    if i == 0 || t.len() == 0 || i >= t.len() - 1 {
        return None;
    }
    if (t[i] == '.' || t[i] == ')') && t[i + 1] == ' ' {
        Some(i + 1)
    } else {
        None
    }
}

pub open spec fn is_rule_text(t: Seq<char>) -> bool {
    t.len() >= 3 && forall|i: int| 0 <= i < t.len() ==> (t[i] == '-' || t[i] == '=')
}

/// A horizontal rule as wide as its source, up to 32 columns.
pub open spec fn rule_spans(n: nat) -> Seq<PreviewSpanView> {
    seq![PreviewSpanView {
        text: Seq::new(if n < 32 { n } else { 32 }, |_i: int| '─'),
        fg: Some(rgb(120, 120, 120)),
        bold: false,
        dim: true,
    }]
}

pub open spec fn marker_span(text: Seq<char>, fg: PreviewColor) -> PreviewSpanView {
    PreviewSpanView { text, fg: Some(fg), bold: true, dim: false }
}

/// How one Markdown line outside code is shown: blank, rule, heading of three levels,
/// quote, bullet, ordered item, or plain text, each with its inline code.
pub open spec fn markdown_line_spec(line: Seq<char>) -> Seq<PreviewSpanView> {
    let t = trim_ws(line);
    if t.len() == 0 {
        seq![plain_span(Seq::empty())]
    } else if is_rule_text(t) {
        rule_spans(t.len())
    } else if starts_with(t, seq!['#', ' ']) {
        inline_spans_spec(t.skip(2), Some(rgb(0, 180, 255)), true, false)
    } else if starts_with(t, seq!['#', '#', ' ']) {
        inline_spans_spec(t.skip(3), Some(rgb(0, 200, 160)), true, false)
    } else if starts_with(t, seq!['#', '#', '#', ' ']) {
        inline_spans_spec(t.skip(4), Some(rgb(255, 180, 0)), true, false)
    } else if starts_with(t, seq!['>', ' ']) {
        seq![marker_span(seq!['▎', ' '], rgb(120, 180, 200))] + inline_spans_spec(t.skip(2), Some(rgb(185, 205, 220)), false, false)
    } else if starts_with(t, seq!['-', ' ']) || starts_with(t, seq!['*', ' ']) || starts_with(t, seq!['+', ' ']) {
        seq![marker_span(seq!['•', ' '], rgb(255, 180, 0))] + inline_spans_spec(t.skip(2), None, false, false)
    } else {
        match ordered_marker_len(t) {
            Some(k) => seq![marker_span(t.take(k as int).push(' '), rgb(255, 180, 0))] + inline_spans_spec(
                trim_start_ws(t.skip(k as int)),
                None,
                false,
                false,
            ),
            None => inline_spans_spec(line, None, false, false),
        }
    }
}

fn has_prefix(t: &Vec<char>, p: &Vec<char>) -> (r: bool)
    ensures
        r == starts_with(t@, p@),
{
    chars_start_with(t, p)
}

fn rest_from(t: &Vec<char>, k: usize) -> (r: String)
    requires
        k <= t.len(),
    ensures
        r@ == t@.skip(k as int),
{
    let v = slice_chars(t, k, t.len());
    assert(v@ =~= t@.skip(k as int));
    string_from(&v)
}

fn marker_with(text: Vec<char>, fg: PreviewColor, rest: Vec<PreviewSpan>) -> (r: PreviewLine)
    ensures
        r@ == seq![marker_span(text@, fg)] + views(rest@),
{
    let mut spans: Vec<PreviewSpan> = Vec::new();
    spans.push(PreviewSpan { text: string_from(&text), fg: Some(fg), bold: true, dim: false });
    let mut i: usize = 0;
    while i < rest.len()
        invariant
            i <= rest.len(),
            views(spans@) == seq![marker_span(text@, fg)] + views(rest@.take(i as int)),
        decreases rest.len() - i,
    {
        let sp = PreviewSpan { text: rest[i].text.clone(), fg: rest[i].fg, bold: rest[i].bold, dim: rest[i].dim };
        let ghost before = spans@;
        spans.push(sp);
        assert(views(spans@) =~= views(before).push(rest@[i as int]@));
        assert(views(rest@.take(i + 1)) =~= views(rest@.take(i as int)).push(rest@[i as int]@));
        i = i + 1;
    }
    assert(rest@.take(rest.len() as int) =~= rest@);
    PreviewLine { spans }
}

/// Renders one Markdown line outside code.
pub fn render_markdown_line(line: &str) -> (r: PreviewLine)
    ensures
        r@ == markdown_line_spec(line@),
{
    let ts = trim(line);
    let t = chars_of(ts.as_str());
    if t.len() == 0 {
        let r = PreviewLine::plain("");
        proof {
            reveal_strlit("");
            assert(trim_end_newlines(""@) =~= Seq::<char>::empty());
        }
        return r;
    }
    let mut all_rule = true;
    let mut i: usize = 0;
    while i < t.len()
        invariant
            i <= t.len(),
            all_rule == (forall|j: int| 0 <= j < i ==> (t@[j] == '-' || t@[j] == '=')),
        decreases t.len() - i,
    {
        if !(t[i] == '-' || t[i] == '=') {
            all_rule = false;
        }
        i = i + 1;
    }
    if all_rule && t.len() >= 3 {
        let n = if t.len() < 32 { t.len() } else { 32 };
        let mut text = String::new();
        let mut k: usize = 0;
        while k < n
            invariant
                k <= n,
                text@ == Seq::new(k as nat, |_i: int| '─'),
            decreases n - k,
        {
            push_char(&mut text, '─');
            assert(text@ =~= Seq::new((k + 1) as nat, |_i: int| '─'));
            k = k + 1;
        }
        let mut spans: Vec<PreviewSpan> = Vec::new();
        spans.push(PreviewSpan { text, fg: Some(color(120, 120, 120)), bold: false, dim: true });
        let r = PreviewLine { spans };
        assert(r@ =~= rule_spans(t.len() as nat));
        return r;
    }
    if has_prefix(&t, &vec!['#', ' ']) {
        let rest = rest_from(&t, 2);
        return PreviewLine { spans: inline_spans(rest.as_str(), Some(color(0, 180, 255)), true, false) };
    }
    if has_prefix(&t, &vec!['#', '#', ' ']) {
        let rest = rest_from(&t, 3);
        return PreviewLine { spans: inline_spans(rest.as_str(), Some(color(0, 200, 160)), true, false) };
    }
    if has_prefix(&t, &vec!['#', '#', '#', ' ']) {
        let rest = rest_from(&t, 4);
        return PreviewLine { spans: inline_spans(rest.as_str(), Some(color(255, 180, 0)), true, false) };
    }
    if has_prefix(&t, &vec!['>', ' ']) {
        let rest = rest_from(&t, 2);
        let spans = inline_spans(rest.as_str(), Some(color(185, 205, 220)), false, false);
        return marker_with(vec!['▎', ' '], color(120, 180, 200), spans);
    }
    if has_prefix(&t, &vec!['-', ' ']) || has_prefix(&t, &vec!['*', ' ']) || has_prefix(&t, &vec!['+', ' ']) {
        let rest = rest_from(&t, 2);
        let spans = inline_spans(rest.as_str(), None, false, false);
        return marker_with(vec!['•', ' '], color(255, 180, 0), spans);
    }
    match ordered_list_marker_len(&t) {
        Some(k) => {
            let mut marker = slice_chars(&t, 0, k);
            marker.push(' ');
            assert(marker@ =~= t@.take(k as int).push(' '));
            let rest = rest_from(&t, k);
            let rest = trim_start(rest.as_str());
            let spans = inline_spans(rest.as_str(), None, false, false);
            marker_with(marker, color(255, 180, 0), spans)
        },
        None => PreviewLine { spans: inline_spans(line, None, false, false) },
    }
}


/// `s` without every leading run of three backticks.
pub open spec fn strip_fences(s: Seq<char>) -> Seq<char>
    decreases s.len(),
{
    if starts_with(s, seq!['`', '`', '`']) {
        strip_fences(s.skip(3))
    } else {
        s
    }
}

/// A code fence line: `Some` with its language (if it names one), `None` for other lines.
pub open spec fn fence_spec(line: Seq<char>) -> Option<Option<Seq<char>>> {
    let t = trim_ws(line);
    if !starts_with(t, seq!['`', '`', '`']) {
        None
    } else {
        let lang = trim_ws(strip_fences(t));
        if lang.len() == 0 {
            Some(None)
        } else {
            Some(Some(lang))
        }
    }
}

/// Reads a code fence line.
pub fn parse_fence(line: &str) -> (r: Option<Option<String>>)
    ensures
        match r {
            None => fence_spec(line@) is None,
            Some(None) => fence_spec(line@) == Some(None::<Seq<char>>),
            Some(Some(l)) => fence_spec(line@) == Some(Some(l@)),
        },
{
    let ts = trim(line);
    let mut t = chars_of(ts.as_str());
    let ticks = vec!['`', '`', '`'];
    if !chars_start_with(&t, &ticks) {
        return None;
    }
    assert(strip_fences(t@) == strip_fences(trim_ws(line@)));
    while chars_start_with(&t, &ticks)
        invariant
            strip_fences(t@) == strip_fences(trim_ws(line@)),
            ticks@ == seq!['`', '`', '`'],
        decreases t.len(),
    {
        let ghost before = t@;
        t = slice_chars(&t, 3, t.len());
        assert(t@ =~= before.skip(3));
    }
    let rest = string_from(&t);
    let lang = trim(rest.as_str());
    if chars_of(lang.as_str()).len() == 0 {
        Some(None)
    } else {
        Some(Some(lang))
    }
}


/// A piece of a rendered Markdown preview: a finished line, or fenced code for the
/// highlighter with its language hint and how many lines it may take.
#[derive(Debug)]
pub enum MarkdownBlock {
    Line(PreviewLine),
    Code { hint: String, content: String, max_lines: usize },
}

pub enum MarkdownBlockView {
    Line(Seq<PreviewSpanView>),
    Code { hint: Seq<char>, content: Seq<char>, max_lines: nat },
}

impl View for MarkdownBlock {
    type V = MarkdownBlockView;

    open spec fn view(&self) -> MarkdownBlockView {
        match self {
            MarkdownBlock::Line(l) => MarkdownBlockView::Line(l@),
            MarkdownBlock::Code { hint, content, max_lines } => MarkdownBlockView::Code {
                hint: hint@,
                content: content@,
                max_lines: *max_lines as nat,
            },
        }
    }
}

/// Rendering state: the blocks so far, how many preview lines they fill, and the open code
/// block (its language and lines) if any.
pub struct MdState {
    pub blocks: Seq<MarkdownBlockView>,
    pub count: nat,
    pub code: Option<(Seq<char>, Seq<Seq<char>>)>,
}

/// Code lines joined, each ended by a line break.
pub open spec fn code_text(ls: Seq<Seq<char>>) -> Seq<char>
    decreases ls.len(),
{
    if ls.len() == 0 {
        Seq::empty()
    } else {
        code_text(ls.drop_last()) + ls.last().push('\n')
    }
}

/// The blocks after closing a code block of `lang` with lines `ls`: nothing when no line is
/// left, a blank line for an empty block, else the code with the lines left; the
/// highlighter fills one line per code line, up to that limit.
pub open spec fn flush_code(st: MdState, lang: Seq<char>, ls: Seq<Seq<char>>, max: nat) -> MdState {
    let remaining: nat = if max > st.count { (max - st.count) as nat } else { 0 };
    if remaining == 0 {
        st
    } else if ls.len() == 0 {
        MdState { blocks: st.blocks.push(MarkdownBlockView::Line(seq![plain_span(Seq::empty())])), count: st.count + 1, code: st.code }
    } else {
        MdState {
            blocks: st.blocks.push(MarkdownBlockView::Code { hint: lang, content: code_text(ls), max_lines: remaining }),
            count: st.count + if ls.len() < remaining { ls.len() } else { remaining },
            code: st.code,
        }
    }
}

/// One source line: a fence opens or closes code, a line inside code is collected, any
/// other line is rendered.
pub open spec fn md_step(st: MdState, raw: Seq<char>, max: nat) -> MdState {
    let line = trim_end_newlines(raw);
    match fence_spec(line) {
        Some(lang) => match st.code {
            Some((l, ls)) => {
                let f = flush_code(st, l, ls, max);
                MdState { blocks: f.blocks, count: f.count, code: None }
            },
            None => MdState {
                blocks: st.blocks,
                count: st.count,
                code: Some((match lang { Some(x) => x, None => Seq::empty() }, Seq::empty())),
            },
        },
        None => match st.code {
            Some((l, ls)) => MdState { blocks: st.blocks, count: st.count, code: Some((l, ls.push(line))) },
            None => MdState { blocks: st.blocks.push(MarkdownBlockView::Line(markdown_line_spec(line))), count: st.count + 1, code: None },
        },
    }
}

/// The state after the lines from `i` on, stopping once `max` lines are filled.
pub open spec fn md_from(ls: Seq<Seq<char>>, i: int, st: MdState, max: nat) -> MdState
    decreases ls.len() - i,
{
    if i < 0 || i >= ls.len() || st.count >= max {
        st
    } else {
        md_from(ls, i + 1, md_step(st, ls[i], max), max)
    }
}

/// The blocks of a Markdown text within `max` lines; an unclosed code block is closed at the
/// end, and an empty result gets a placeholder line.
pub open spec fn markdown_blocks_spec(content: Seq<char>, max: nat) -> Seq<MarkdownBlockView> {
    let st = md_from(text_lines(content), 0, MdState { blocks: Seq::empty(), count: 0, code: None }, max);
    let st2 = match st.code {
        Some((l, ls)) => if st.count < max { flush_code(st, l, ls, max) } else { st },
        None => st,
    };
    if st2.count == 0 {
        st2.blocks.push(MarkdownBlockView::Line(seq![plain_span(trim_end_newlines("（空 Markdown）"@))]))
    } else {
        st2.blocks
    }
}

fn code_string(ls: &Vec<String>) -> (r: String)
    ensures
        r@ == code_text(views(ls@)),
{
    let mut r = String::new();
    let mut i: usize = 0;
    while i < ls.len()
        invariant
            i <= ls.len(),
            r@ == code_text(views(ls@).take(i as int)),
        decreases ls.len() - i,
    {
        append_str(&mut r, ls[i].as_str());
        push_char(&mut r, '\n');
        assert(views(ls@).take(i + 1).drop_last() =~= views(ls@).take(i as int));
        i = i + 1;
    }
    assert(views(ls@).take(ls.len() as int) =~= views(ls@));
    r
}

fn flush_into(blocks: &mut Vec<MarkdownBlock>, count: &mut usize, lang: &String, ls: &Vec<String>, max: usize)
    requires
        *old(count) <= max,
    ensures
        ({
            let f = flush_code(MdState { blocks: views(old(blocks)@), count: *old(count) as nat, code: None }, lang@, views(ls@), max as nat);
            views(final(blocks)@) == f.blocks && *final(count) as nat == f.count
        }),
        *final(count) <= max,
{
    let remaining = max - *count;
    if remaining == 0 {
        return;
    }
    if ls.len() == 0 {
        let line = PreviewLine::plain("");
        proof {
            reveal_strlit("");
            assert(trim_end_newlines(""@) =~= Seq::<char>::empty());
        }
        let ghost before = blocks@;
        blocks.push(MarkdownBlock::Line(line));
        assert(views(blocks@) =~= views(before).push(MarkdownBlockView::Line(seq![plain_span(Seq::empty())])));
        *count = *count + 1;
    } else {
        let content = code_string(ls);
        let ghost before = blocks@;
        blocks.push(MarkdownBlock::Code { hint: lang.clone(), content, max_lines: remaining });
        assert(views(blocks@) =~= views(before).push(
            MarkdownBlockView::Code { hint: lang@, content: code_text(views(ls@)), max_lines: remaining as nat },
        ));
        let used = if ls.len() < remaining { ls.len() } else { remaining };
        *count = *count + used;
    }
}

pub open spec fn md_state(blocks: Seq<MarkdownBlock>, count: usize, code_lang: Option<String>, buffer: Seq<String>) -> MdState {
    MdState {
        blocks: views(blocks),
        count: count as nat,
        code: match code_lang {
            Some(l) => Some((l@, views(buffer))),
            None => None,
        },
    }
}

/// Renders Markdown text into at most `max_lines` preview lines' worth of blocks.
pub fn render_markdown(content: &str, max_lines: usize) -> (r: Vec<MarkdownBlock>)
    ensures
        views(r@) == markdown_blocks_spec(content@, max_lines as nat),
{
    let ls = lines_of(content);
    let mut blocks: Vec<MarkdownBlock> = Vec::new();
    let mut count: usize = 0;
    let mut code_lang: Option<String> = None;
    let mut buffer: Vec<String> = Vec::new();
    let ghost init = MdState { blocks: Seq::empty(), count: 0, code: None };
    assert(views(blocks@) =~= Seq::<MarkdownBlockView>::empty());
    let mut i: usize = 0;
    while i < ls.len()
        invariant
            i <= ls.len(),
            views(ls@) == text_lines(content@),
            count <= max_lines,
            md_from(views(ls@), 0, init, max_lines as nat) == md_from(views(ls@), i as int, md_state(blocks@, count, code_lang, buffer@), max_lines as nat),
            code_lang is None ==> buffer@.len() == 0,
        ensures
            md_from(views(ls@), 0, init, max_lines as nat) == md_state(blocks@, count, code_lang, buffer@),
            count <= max_lines,
        decreases ls.len() - i,
    {
        if count >= max_lines {
            break;
        }
        let ghost sti = md_state(blocks@, count, code_lang, buffer@);
        let line = strip_line_breaks(ls[i].as_str());
        match parse_fence(line.as_str()) {
            Some(lang) => {
                match code_lang {
                    Some(l) => {
                        flush_into(&mut blocks, &mut count, &l, &buffer, max_lines);
                        buffer = Vec::new();
                        code_lang = None;
                        assert(md_state(blocks@, count, code_lang, buffer@) == md_step(sti, ls@[i as int]@, max_lines as nat));
                    },
                    None => {
                        code_lang = Some(match lang {
                            Some(x) => x,
                            None => String::new(),
                        });
                        buffer = Vec::new();
                        assert(views(buffer@) =~= Seq::<Seq<char>>::empty());
                        assert(md_state(blocks@, count, code_lang, buffer@) == md_step(sti, ls@[i as int]@, max_lines as nat));
                    },
                }
            },
            None => {
                match &code_lang {
                    Some(_) => {
                        let ghost before = buffer@;
                        buffer.push(line);
                        assert(views(buffer@) =~= views(before).push(trim_end_newlines(ls@[i as int]@)));
                        assert(md_state(blocks@, count, code_lang, buffer@) == md_step(sti, ls@[i as int]@, max_lines as nat));
                    },
                    None => {
                        let rendered = render_markdown_line(line.as_str());
                        let ghost before = blocks@;
                        blocks.push(MarkdownBlock::Line(rendered));
                        assert(views(blocks@) =~= views(before).push(MarkdownBlockView::Line(markdown_line_spec(trim_end_newlines(ls@[i as int]@)))));
                        count = count + 1;
                        assert(md_state(blocks@, count, code_lang, buffer@) == md_step(sti, ls@[i as int]@, max_lines as nat));
                    },
                }
            },
        }
        i = i + 1;
    }
    match code_lang {
        Some(l) => {
            if count < max_lines {
                flush_into(&mut blocks, &mut count, &l, &buffer, max_lines);
            }
        },
        None => {},
    }
    if count == 0 {
        let line = PreviewLine::plain("（空 Markdown）");
        let ghost before = blocks@;
        blocks.push(MarkdownBlock::Line(line));
        assert(views(blocks@) =~= views(before).push(MarkdownBlockView::Line(seq![plain_span(trim_end_newlines("（空 Markdown）"@))])));
    }
    blocks
}



/// The preview of a Markdown file from its rendered lines.
pub open spec fn markdown_result_spec(path: Seq<char>, size: Option<u64>, lines: Seq<Seq<PreviewSpanView>>) -> crate::domain::preview::PreviewDocView {
    crate::domain::preview::PreviewDocView {
        kind: crate::domain::preview::PreviewKind::Markdown,
        title: crate::infra::providers::archive::title_spec(path),
        subtitle: Some(path),
        provider_name: "Markdown"@,
        degraded: false,
        metadata: seq![("大小"@, crate::infra::fs::size_label_spec(size))],
        warnings: Seq::empty(),
        actions: seq!["回车：阅读"@, "o：外部打开"@],
        wrap_mode: crate::domain::preview::PreviewWrapMode::Wrap,
        lines,
        first_line_number: 1,
    }
}

pub fn markdown_preview_result(path: &str, size: Option<u64>, lines: Vec<PreviewLine>) -> (r: crate::domain::preview::PreviewResult)
    ensures
        r@ == markdown_result_spec(path@, size, views(lines@)),
{
    let mut metadata: Vec<(String, String)> = Vec::new();
    metadata.push((String::from_str("大小"), crate::infra::fs::size_label(size)));
    assert(views(metadata@) =~= seq![("大小"@, crate::infra::fs::size_label_spec(size))]);
    let mut actions: Vec<String> = Vec::new();
    actions.push(String::from_str("回车：阅读"));
    actions.push(String::from_str("o：外部打开"));
    assert(views(actions@) =~= seq!["回车：阅读"@, "o：外部打开"@]);
    let warnings: Vec<String> = Vec::new();
    assert(views(warnings@) =~= Seq::<Seq<char>>::empty());
    crate::domain::preview::PreviewResult {
        kind: crate::domain::preview::PreviewKind::Markdown,
        title: crate::infra::providers::title_for(path),
        subtitle: Some(String::from_str(path)),
        provider_name: String::from_str("Markdown"),
        degraded: false,
        metadata,
        warnings,
        actions,
        wrap_mode: crate::domain::preview::PreviewWrapMode::Wrap,
        lines,
        first_line_number: 1,
    }
}


/// `t` without its backticks.
pub open spec fn strip_backticks(t: Seq<char>) -> Seq<char>
    decreases t.len(),
{
    if t.len() == 0 {
        Seq::empty()
    } else if t.last() == '`' {
        strip_backticks(t.drop_last())
    } else {
        strip_backticks(t.drop_last()).push(t.last())
    }
}

/// The colour of inline code.
pub open spec fn code_color() -> PreviewColor {
    rgb(255, 214, 102)
}

/// Every span has the given dimness, and either the given colour and weight or the bold
/// inline-code colour.
pub open spec fn styled_as(sp: Seq<PreviewSpanView>, fg: Option<PreviewColor>, bold: bool, dim: bool) -> bool {
    forall|j: int| 0 <= j < sp.len() ==> (#[trigger] sp[j]).dim == dim
        && ((sp[j].fg == fg && sp[j].bold == bold) || (sp[j].fg == Some(code_color()) && sp[j].bold))
}

proof fn lemma_inline_state(t: Seq<char>, fg: Option<PreviewColor>, bold: bool, dim: bool)
    ensures
        styled_as(inline_state(t, fg, bold, dim).0, fg, bold, dim),
        spans_text(inline_state(t, fg, bold, dim).0) + inline_state(t, fg, bold, dim).1 == strip_backticks(t),
    decreases t.len(),
{
    if t.len() == 0 {
        assert(Seq::<char>::empty() + Seq::<char>::empty() =~= Seq::<char>::empty());
    } else {
        lemma_inline_state(t.drop_last(), fg, bold, dim);
        let (spans, cur, code) = inline_state(t.drop_last(), fg, bold, dim);
        if t.last() == '`' {
            if cur.len() > 0 {
                let sp2 = spans.push(inline_span(cur, code, fg, bold, dim));
                assert(sp2.drop_last() =~= spans);
                assert(spans_text(sp2) == spans_text(spans) + cur);
                assert forall|j: int| 0 <= j < sp2.len() implies (#[trigger] sp2[j]).dim == dim
                    && ((sp2[j].fg == fg && sp2[j].bold == bold) || (sp2[j].fg == Some(code_color()) && sp2[j].bold)) by {
                    if j < spans.len() {
                        assert(sp2[j] == spans[j]);
                    }
                }
            }
            assert(spans_text(inline_state(t, fg, bold, dim).0) + Seq::<char>::empty() =~= spans_text(inline_state(t, fg, bold, dim).0));
        } else {
            assert(spans_text(spans) + cur.push(t.last()) =~= (spans_text(spans) + cur).push(t.last()));
        }
    }
}

/// Inline text becomes spans that hold its text without the backticks, in order, each in the
/// requested style or, inside backticks, bold in the code colour; there is always a span.
pub proof fn inline_spans_keep_text(t: Seq<char>, fg: Option<PreviewColor>, bold: bool, dim: bool)
    ensures
        inline_spans_spec(t, fg, bold, dim).len() >= 1,
        styled_as(inline_spans_spec(t, fg, bold, dim), fg, bold, dim),
        spans_text(inline_spans_spec(t, fg, bold, dim)) == strip_backticks(t),
{
    lemma_inline_state(t, fg, bold, dim);
    let (spans, cur, code) = inline_state(t, fg, bold, dim);
    let all = if cur.len() > 0 { spans.push(inline_span(cur, code, fg, bold, dim)) } else { spans };
    if cur.len() > 0 {
        assert(all.drop_last() =~= spans);
        assert(spans_text(all) == spans_text(spans) + cur);
        assert forall|j: int| 0 <= j < all.len() implies (#[trigger] all[j]).dim == dim
            && ((all[j].fg == fg && all[j].bold == bold) || (all[j].fg == Some(code_color()) && all[j].bold)) by {
            if j < spans.len() {
                assert(all[j] == spans[j]);
            }
        }
    } else {
        assert(spans_text(spans) + cur =~= spans_text(spans));
    }
    if all.len() == 0 {
        let one = seq![PreviewSpanView { text: Seq::empty(), fg, bold, dim }];
        assert(one.drop_last() =~= Seq::<PreviewSpanView>::empty());
        assert(spans_text(Seq::<PreviewSpanView>::empty()) == Seq::<char>::empty());
        assert(spans_text(one) == spans_text(one.drop_last()) + one.last().text);
        assert(spans_text(one) =~= Seq::<char>::empty());
        assert(spans_text(all) =~= Seq::<char>::empty());
    }
}

/// The colours of the three heading levels.
pub open spec fn heading_color(level: nat) -> PreviewColor {
    if level == 1 { rgb(0, 180, 255) } else if level == 2 { rgb(0, 200, 160) } else { rgb(255, 180, 0) }
}

/// A heading line (`# `, `## ` or `### ` after trimming) shows only the text after its marks,
/// without backticks, every span bold and in the level's colour (inline code in the code
/// colour): no span holds the marks.
pub proof fn headings_drop_their_marks(line: Seq<char>, level: nat)
    requires
        1 <= level <= 3,
        starts_with(trim_ws(line), Seq::new(level, |_i: int| '#').push(' ')),
    ensures
        styled_as(markdown_line_spec(line), Some(heading_color(level)), true, false),
        forall|j: int| 0 <= j < markdown_line_spec(line).len() ==> (#[trigger] markdown_line_spec(line)[j]).bold,
        spans_text(markdown_line_spec(line)) == strip_backticks(trim_ws(line).skip(level as int + 1)),
{
    let t = trim_ws(line);
    let m = Seq::new(level, |_i: int| '#').push(' ');
    assert(t.take(m.len() as int) == m);
    assert(t[0] == m[0]);
    assert(!is_rule_text(t)) by {
        assert(!(t[0] == '-' || t[0] == '='));
    }
    if level == 1 {
        assert(m =~= seq!['#', ' ']);
    } else if level == 2 {
        assert(t[1] == m[1]);
        assert(!starts_with(t, seq!['#', ' '])) by {
            if starts_with(t, seq!['#', ' ']) {
                assert(t.take(2)[1] == ' ');
            }
        }
        assert(m =~= seq!['#', '#', ' ']);
    } else {
        assert(t[1] == m[1]);
        assert(t[2] == m[2]);
        assert(!starts_with(t, seq!['#', ' '])) by {
            if starts_with(t, seq!['#', ' ']) {
                assert(t.take(2)[1] == ' ');
            }
        }
        assert(!starts_with(t, seq!['#', '#', ' '])) by {
            if starts_with(t, seq!['#', '#', ' ']) {
                assert(t.take(3)[2] == ' ');
            }
        }
        assert(m =~= seq!['#', '#', '#', ' ']);
    }
    inline_spans_keep_text(t.skip(level as int + 1), Some(heading_color(level)), true, false);
}

/// A list item (`- `, `* ` or `+ ` after trimming) shows a bullet, then the item's text
/// without its marker, plain.
pub proof fn list_items_show_a_bullet(line: Seq<char>)
    requires
        starts_with(trim_ws(line), seq!['-', ' ']) || starts_with(trim_ws(line), seq!['*', ' ']) || starts_with(trim_ws(line), seq!['+', ' ']),
    ensures
        markdown_line_spec(line)[0].text == seq!['•', ' '],
        spans_text(markdown_line_spec(line)) == seq!['•', ' '] + strip_backticks(trim_ws(line).skip(2)),
        styled_as(markdown_line_spec(line).drop_first(), None, false, false),
{
    let t = trim_ws(line);
    assert(t.take(2)[1] == ' ');
    assert(t[1] == ' ');
    assert(!is_rule_text(t)) by {
        assert(!(t[1] == '-' || t[1] == '='));
    }
    assert(!starts_with(t, seq!['#', ' ']) && !starts_with(t, seq!['#', '#', ' ']) && !starts_with(t, seq!['#', '#', '#', ' '])
        && !starts_with(t, seq!['>', ' '])) by {
        assert(t.take(2)[0] == t[0]);
        if starts_with(t, seq!['#', '#', ' ']) { assert(t.take(3)[0] == '#'); }
        if starts_with(t, seq!['#', '#', '#', ' ']) { assert(t.take(4)[0] == '#'); }
    }
    let rest = inline_spans_spec(t.skip(2), None, false, false);
    inline_spans_keep_text(t.skip(2), None, false, false);
    let r = seq![marker_span(seq!['•', ' '], rgb(255, 180, 0))] + rest;
    assert(r.drop_first() =~= rest);
    lemma_spans_text_prepend(marker_span(seq!['•', ' '], rgb(255, 180, 0)), rest);
}

/// A quote (`> ` after trimming) shows a quote bar, then the quoted text without its marker,
/// in the quote colour and not bold.
pub proof fn quotes_show_a_bar(line: Seq<char>)
    requires
        starts_with(trim_ws(line), seq!['>', ' ']),
    ensures
        markdown_line_spec(line)[0].text == seq!['▎', ' '],
        spans_text(markdown_line_spec(line)) == seq!['▎', ' '] + strip_backticks(trim_ws(line).skip(2)),
        styled_as(markdown_line_spec(line).drop_first(), Some(rgb(185, 205, 220)), false, false),
{
    let t = trim_ws(line);
    assert(t.take(2)[0] == '>');
    assert(t[0] == '>');
    assert(!is_rule_text(t)) by {
        assert(!(t[0] == '-' || t[0] == '='));
    }
    assert(!starts_with(t, seq!['#', ' ']) && !starts_with(t, seq!['#', '#', ' ']) && !starts_with(t, seq!['#', '#', '#', ' '])) by {
        if starts_with(t, seq!['#', ' ']) { assert(t.take(2)[0] == '#'); }
        if starts_with(t, seq!['#', '#', ' ']) { assert(t.take(3)[0] == '#'); }
        if starts_with(t, seq!['#', '#', '#', ' ']) { assert(t.take(4)[0] == '#'); }
    }
    let rest = inline_spans_spec(t.skip(2), Some(rgb(185, 205, 220)), false, false);
    inline_spans_keep_text(t.skip(2), Some(rgb(185, 205, 220)), false, false);
    let r = seq![marker_span(seq!['▎', ' '], rgb(120, 180, 200))] + rest;
    assert(r.drop_first() =~= rest);
    lemma_spans_text_prepend(marker_span(seq!['▎', ' '], rgb(120, 180, 200)), rest);
}

proof fn lemma_spans_text_prepend(x: PreviewSpanView, sp: Seq<PreviewSpanView>)
    ensures
        spans_text(seq![x] + sp) == x.text + spans_text(sp),
    decreases sp.len(),
{
    if sp.len() == 0 {
        assert(seq![x] + sp =~= seq![x]);
        assert(seq![x].drop_last() =~= Seq::<PreviewSpanView>::empty());
        assert(spans_text(Seq::<PreviewSpanView>::empty()) == Seq::<char>::empty());
        assert(spans_text(seq![x]) == spans_text(seq![x].drop_last()) + seq![x].last().text);
        assert(x.text + Seq::<char>::empty() =~= x.text);
        assert(Seq::<char>::empty() + x.text =~= x.text);
    } else {
        lemma_spans_text_prepend(x, sp.drop_last());
        assert((seq![x] + sp).drop_last() =~= seq![x] + sp.drop_last());
        assert((seq![x] + sp).last() == sp.last());
        assert(spans_text(seq![x] + sp) == spans_text((seq![x] + sp).drop_last()) + (seq![x] + sp).last().text);
        assert(spans_text(sp) == spans_text(sp.drop_last()) + sp.last().text);
        assert(x.text + spans_text(sp.drop_last()) + sp.last().text =~= x.text + (spans_text(sp.drop_last()) + sp.last().text));
    }
}

} // verus!
