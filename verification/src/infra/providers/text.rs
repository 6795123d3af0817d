//! Text and code previews: how much to read, whether to highlight, and what to warn about.
use vstd::prelude::*;
use crate::domain::entry::EntryKind;
use crate::domain::preview::{PreviewDocView, PreviewKind, PreviewLine, PreviewResult, PreviewSpanView, PreviewWrapMode};
use crate::infra::fs::{size_label, size_label_spec};
use crate::infra::providers::{plain_line_of, title_for, PreviewSurface};
use crate::infra::providers::archive::title_spec;
use crate::lexing::{lines_of, text_lines};
use crate::text::{append_str, decimal, push_decimal, views};

verus! {

/// How many lines a text preview reads: the viewport, but at least 140 for inspection and
/// 220 in the browser.
pub open spec fn text_max_lines_spec(viewport_hint: usize, surface: PreviewSurface) -> usize {
    let floor: usize = match surface {
        PreviewSurface::Inspect => 140,
        PreviewSurface::Tui => 220,
    };
    if viewport_hint > floor { viewport_hint } else { floor }
}

pub fn text_max_lines(viewport_hint: usize, surface: PreviewSurface) -> (r: usize)
    ensures
        r == text_max_lines_spec(viewport_hint, surface),
{
    let floor: usize = match surface {
        PreviewSurface::Inspect => 140,
        PreviewSurface::Tui => 220,
    };
    if viewport_hint > floor { viewport_hint } else { floor }
}

/// Between 256 KiB and 2 MiB (inclusive): previewed through a window.
pub open spec fn is_mid_sized(size: u64) -> bool {
    262144 <= size <= 2097152
}

/// Over 2 MiB: not highlighted.
pub open spec fn is_large(size: u64) -> bool {
    size > 2097152
}

pub open spec fn size_of(size: Option<u64>) -> u64 {
    match size {
        Some(s) => s,
        None => 0,
    }
}

/// What to read of a text file.
#[derive(Debug, Clone, Copy, PartialEq, Eq, Structural)]
pub enum TextReadPlan {
    /// Highlight the first `max_lines` lines (a mid-sized code file).
    HighlightExcerpt { max_lines: usize },
    /// Highlight the whole file (a small code file).
    HighlightWhole,
    /// Show up to `max_lines` lines as plain text.
    PlainLines { max_lines: usize },
}

pub open spec fn text_read_plan_spec(kind: EntryKind, size: Option<u64>, viewport_hint: usize, surface: PreviewSurface) -> TextReadPlan {
    let max = text_max_lines_spec(viewport_hint, surface);
    let s = size_of(size);
    if kind == EntryKind::Code && !is_large(s) {
        if is_mid_sized(s) {
            TextReadPlan::HighlightExcerpt { max_lines: max }
        } else {
            TextReadPlan::HighlightWhole
        }
    } else {
        TextReadPlan::PlainLines { max_lines: max }
    }
}

pub fn text_read_plan(kind: EntryKind, size: Option<u64>, viewport_hint: usize, surface: PreviewSurface) -> (r: TextReadPlan)
    ensures
        r == text_read_plan_spec(kind, size, viewport_hint, surface),
{
    let max = text_max_lines(viewport_hint, surface);
    let s = match size {
        Some(s) => s,
        None => 0,
    };
    if kind == EntryKind::Code && !(s > 2097152) {
        if 262144 <= s && s <= 2097152 {
            TextReadPlan::HighlightExcerpt { max_lines: max }
        } else {
            TextReadPlan::HighlightWhole
        }
    } else {
        TextReadPlan::PlainLines { max_lines: max }
    }
}

/// The excerpt highlighted for a mid-sized file: the lines read, each ended by a line
/// break; none when nothing was read.
pub open spec fn excerpt_spec(lines: Seq<Seq<char>>) -> Option<Seq<char>> {
    if crate::infra::providers::markdown::code_text(lines).len() == 0 {
        None
    } else {
        Some(crate::infra::providers::markdown::code_text(lines))
    }
}

pub fn excerpt_of(lines: &Vec<String>) -> (r: Option<String>)
    ensures
        crate::domain::preview::opt_view(r) == excerpt_spec(views(lines@)),
{
    let mut r = String::new();
    let mut i: usize = 0;
    while i < lines.len()
        invariant
            i <= lines.len(),
            r@ == crate::infra::providers::markdown::code_text(views(lines@).take(i as int)),
        decreases lines.len() - i,
    {
        append_str(&mut r, lines[i].as_str());
        crate::text::push_char(&mut r, '\n');
        assert(views(lines@).take(i + 1).drop_last() =~= views(lines@).take(i as int));
        i = i + 1;
    }
    assert(views(lines@).take(lines.len() as int) =~= views(lines@));
    if r.as_str().unicode_len() == 0 {
        None
    } else {
        Some(r)
    }
}

/// How many lines a whole small file is highlighted to: its line count, at least one.
pub fn whole_file_budget(content: &str) -> (r: usize)
    ensures
        r == (if text_lines(content@).len() > 1 { text_lines(content@).len() } else { 1 }),
{
    let n = lines_of(content).len();
    if n > 1 { n } else { 1 }
}

/// What was read: highlighted lines, a file that could not be read as text, or plain lines.
#[derive(Debug)]
pub enum TextSource {
    Highlighted(Vec<PreviewLine>),
    Unreadable,
    Plain(Vec<String>),
}

pub open spec fn unreadable_line() -> Seq<PreviewSpanView> {
    plain_line_of("二进制或不可读内容"@)
}

/// The lines shown for what was read; anything unreadable or empty where plain lines were
/// expected shows a placeholder.
pub open spec fn text_lines_spec(source: TextSource) -> Seq<Seq<PreviewSpanView>> {
    match source {
        TextSource::Highlighted(ls) => views(ls@),
        TextSource::Unreadable => seq![unreadable_line()],
        TextSource::Plain(ls) => if ls@.len() == 0 {
            seq![unreadable_line()]
        } else {
            views(ls@).map_values(|l: Seq<char>| plain_line_of(l))
        },
    }
}

pub open spec fn mid_highlight_warning(max: nat) -> Seq<char> {
    "中等文件：当前只高亮前 "@ + decimal(max) + " 行，继续滚动时建议按 n 关闭行号后复制"@
}

pub open spec fn mid_window_warning(max: nat) -> Seq<char> {
    "中等文件：仅加载前 "@ + decimal(max) + " 行窗口内容"@
}

pub open spec fn large_warning() -> Seq<char> {
    "大文件：已关闭语法高亮，仅显示前部文本"@
}

/// The warnings of a text preview: the excerpt note when a mid-sized file was highlighted,
/// the large-file note for plain previews of large files, and the window note for any other
/// mid-sized preview.
pub open spec fn text_warnings_spec(kind: EntryKind, size: u64, max: nat, highlighted: bool) -> Seq<Seq<char>> {
    let first: Seq<Seq<char>> = if kind == EntryKind::Code && !is_large(size) {
        if is_mid_sized(size) && highlighted { seq![mid_highlight_warning(max)] } else { Seq::empty() }
    } else if is_large(size) {
        seq![large_warning()]
    } else {
        Seq::empty()
    };
    if is_mid_sized(size) && first.len() == 0 {
        seq![mid_window_warning(max)]
    } else {
        first
    }
}

pub open spec fn text_kind(kind: EntryKind) -> PreviewKind {
    match kind {
        EntryKind::Code => PreviewKind::Code,
        EntryKind::Text | EntryKind::Unknown => PreviewKind::Text,
        _ => PreviewKind::Binary,
    }
}

pub open spec fn highlight_label(size: u64) -> Seq<char> {
    if is_large(size) {
        "关闭"@
    } else if is_mid_sized(size) {
        "窗口级"@
    } else {
        "开启"@
    }
}

/// The preview of a text or code file from what was read of it.
pub open spec fn text_result_spec(path: Seq<char>, kind: EntryKind, size: Option<u64>, max: nat, source: TextSource) -> PreviewDocView {
    let s = size_of(size);
    PreviewDocView {
        kind: text_kind(kind),
        title: title_spec(path),
        subtitle: Some(path),
        provider_name: "文本"@,
        degraded: is_mid_sized(s) || is_large(s),
        metadata: seq![("大小"@, size_label_spec(size)), ("高亮"@, highlight_label(s))],
        warnings: text_warnings_spec(kind, s, max, source is Highlighted),
        actions: seq!["回车：阅读"@, "o：外部打开"@],
        wrap_mode: if text_kind(kind) == PreviewKind::Code { PreviewWrapMode::NoWrap } else { PreviewWrapMode::Wrap },
        lines: text_lines_spec(source),
        first_line_number: 1,
    }
}

fn with_number(head: &str, n: usize, tail: &str) -> (r: String)
    ensures
        r@ == head@ + decimal(n as nat) + tail@,
{
    let mut s = String::new();
    append_str(&mut s, head);
    push_decimal(&mut s, n as u64);
    append_str(&mut s, tail);
    s
}

pub fn text_preview_result(path: &str, kind: EntryKind, size: Option<u64>, max_lines: usize, source: TextSource) -> (r: PreviewResult)
    ensures
        r@ == text_result_spec(path@, kind, size, max_lines as nat, source),
{
    let ghost src = source;
    let s = match size {
        Some(s) => s,
        None => 0,
    };
    let mid = 262144 <= s && s <= 2097152;
    let large = s > 2097152;
    let highlighted = match &source {
        TextSource::Highlighted(_) => true,
        _ => false,
    };
    let mut warnings: Vec<String> = Vec::new();
    if kind == EntryKind::Code && !large {
        if mid && highlighted {
            warnings.push(with_number("中等文件：当前只高亮前 ", max_lines, " 行，继续滚动时建议按 n 关闭行号后复制"));
        }
    } else if large {
        warnings.push(String::from_str("大文件：已关闭语法高亮，仅显示前部文本"));
    }
    if mid && warnings.len() == 0 {
        warnings.push(with_number("中等文件：仅加载前 ", max_lines, " 行窗口内容"));
    }
    assert(views(warnings@) =~= text_warnings_spec(kind, s, max_lines as nat, highlighted));
    let lines: Vec<PreviewLine> = match source {
        TextSource::Highlighted(ls) => ls,
        TextSource::Unreadable => {
            let mut v: Vec<PreviewLine> = Vec::new();
            v.push(PreviewLine::plain("二进制或不可读内容"));
            assert(views(v@) =~= seq![unreadable_line()]);
            v
        },
        TextSource::Plain(ls) => {
            let mut v: Vec<PreviewLine> = Vec::new();
            if ls.len() == 0 {
                v.push(PreviewLine::plain("二进制或不可读内容"));
                assert(views(v@) =~= seq![unreadable_line()]);
            } else {
                let mut i: usize = 0;
                while i < ls.len()
                    invariant
                        i <= ls.len(),
                        views(v@) == views(ls@).take(i as int).map_values(|l: Seq<char>| plain_line_of(l)),
                    decreases ls.len() - i,
                {
                    let l = PreviewLine::plain(ls[i].as_str());
                    let ghost before = v@;
                    v.push(l);
                    assert(views(v@) =~= views(before).push(l@));
                    assert(views(ls@).take(i + 1).map_values(|l: Seq<char>| plain_line_of(l)) =~= views(ls@).take(i as int).map_values(|l: Seq<char>| plain_line_of(l)).push(plain_line_of(ls@[i as int]@)));
                    i = i + 1;
                }
                assert(views(ls@).take(ls.len() as int) =~= views(ls@));
            }
            v
        },
    };
    let preview_kind = match kind {
        EntryKind::Code => PreviewKind::Code,
        EntryKind::Text | EntryKind::Unknown => PreviewKind::Text,
        _ => PreviewKind::Binary,
    };
    let mut metadata: Vec<(String, String)> = Vec::new();
    metadata.push((String::from_str("大小"), size_label(size)));
    let label = if large {
        String::from_str("关闭")
    } else if mid {
        String::from_str("窗口级")
    } else {
        String::from_str("开启")
    };
    metadata.push((String::from_str("高亮"), label));
    assert(views(metadata@) =~= seq![("大小"@, size_label_spec(size)), ("高亮"@, highlight_label(s))]);
    let mut actions: Vec<String> = Vec::new();
    actions.push(String::from_str("回车：阅读"));
    actions.push(String::from_str("o：外部打开"));
    assert(views(actions@) =~= seq!["回车：阅读"@, "o：外部打开"@]);
    let wrap_mode = match preview_kind {
        PreviewKind::Code => PreviewWrapMode::NoWrap,
        _ => PreviewWrapMode::Wrap,
    };
    PreviewResult {
        kind: preview_kind,
        title: title_for(path),
        subtitle: Some(String::from_str(path)),
        provider_name: String::from_str("文本"),
        degraded: mid || large,
        metadata,
        warnings,
        actions,
        wrap_mode,
        lines,
        first_line_number: 1,
    }
}

} // verus!
