//! What the browser's chrome shows: the layout chosen for a terminal size, the command
//! line prompt and the status line.
use vstd::prelude::*;
use ratatui::layout::{Constraint, Direction, Layout, Rect};
use crate::config::keymap::{context_label, context_label_spec};
use crate::domain::keymap::KeyBindingView;
use crate::surfaces::tui::app::help::footer_spec;
use crate::surfaces::tui::app::state::{state_wf, help_context_spec, sort_mode_label_spec, AppState, AppStateView, InputMode};
use crate::text::{append_str, chars_of, decimal, decimal_string, join, join_strings, push_char, push_decimal, push_spaces, spaces, string_from, views};
use crate::domain::preview::{opt_view, PreviewKind};

verus! {

/// How the panes are arranged.
#[derive(Debug, Clone, Copy, PartialEq, Eq, Structural)]
pub enum LayoutMode {
    Wide,
    Stacked,
    Rows,
    Compact,
    Micro,
}

/// The arrangement for a terminal of the given size: three columns from 136 columns, a
/// column and a stack from 100, three rows from 72 (all with 18 lines or more), two rows
/// from 14 lines, else a single pane.
pub open spec fn layout_mode_spec(width: u16, height: u16) -> LayoutMode {
    if width >= 136 && height >= 18 {
        LayoutMode::Wide
    } else if width >= 100 && height >= 18 {
        LayoutMode::Stacked
    } else if width >= 72 && height >= 18 {
        LayoutMode::Rows
    } else if height >= 14 {
        LayoutMode::Compact
    } else {
        LayoutMode::Micro
    }
}

pub fn layout_mode(width: u16, height: u16) -> (r: LayoutMode)
    ensures
        r == layout_mode_spec(width, height),
{
    if width >= 136 && height >= 18 {
        LayoutMode::Wide
    } else if width >= 100 && height >= 18 {
        LayoutMode::Stacked
    } else if width >= 72 && height >= 18 {
        LayoutMode::Rows
    } else if height >= 14 {
        LayoutMode::Compact
    } else {
        LayoutMode::Micro
    }
}

/// A rectangle of terminal cells.
#[derive(Debug, Clone, Copy, PartialEq, Eq, Structural)]
pub struct PaneRect {
    pub x: u16,
    pub y: u16,
    pub width: u16,
    pub height: u16,
}

/// How one part of a split is sized.
#[derive(Debug, Clone, Copy, PartialEq, Eq, Structural)]
pub enum LayoutConstraint {
    Min(u16),
    Length(u16),
    Percentage(u16),
}

/// The areas ratatui's `Layout::split` gives `area` cut in `constraints`, top to bottom when
/// `vertical`, else left to right.
pub uninterp spec fn layout_split(vertical: bool, constraints: Seq<LayoutConstraint>, area: PaneRect) -> Seq<PaneRect>;

/// ratatui `Layout::split` with default margin, spacing and flex: one area per constraint.
#[verifier::external_body]
pub(crate) fn split_area(vertical: bool, constraints: &Vec<LayoutConstraint>, area: PaneRect) -> (r: Vec<PaneRect>)
    ensures
        r@ == layout_split(vertical, constraints@, area),
        r.len() == constraints.len(),
{
    let cs: Vec<Constraint> = constraints.iter().map(|c| match *c {
        LayoutConstraint::Min(v) => Constraint::Min(v),
        LayoutConstraint::Length(v) => Constraint::Length(v),
        LayoutConstraint::Percentage(v) => Constraint::Percentage(v),
    }).collect();
    let direction = if vertical { Direction::Vertical } else { Direction::Horizontal };
    let rect = Rect { x: area.x, y: area.y, width: area.width, height: area.height };
    Layout::default().direction(direction).constraints(cs).split(rect).iter()
        .map(|r| PaneRect { x: r.x, y: r.y, width: r.width, height: r.height }).collect()
}

/// Where the panes and the status line go, and the arrangement chosen.
#[derive(Debug, Clone, Copy, PartialEq, Eq, Structural)]
pub struct PaneAreas {
    pub explorer: PaneRect,
    pub preview: PaneRect,
    pub inspector: PaneRect,
    pub status: PaneRect,
    pub mode: LayoutMode,
}

/// The panes of a terminal area: one status row at the bottom; above it three columns
/// (28/48/24 %), a column beside a stack (34/66 %, the stack 62/38 %), three rows
/// (38/34/28 %), two rows (42/58 %) with preview and inspector sharing the second, or one
/// area shared by all, as the arrangement for its size says.
pub open spec fn pane_areas_spec(area: PaneRect) -> PaneAreas {
    let vertical = layout_split(true, seq![LayoutConstraint::Min(0), LayoutConstraint::Length(1)], area);
    let body = vertical[0];
    let status = vertical[1];
    let mode = layout_mode_spec(area.width, area.height);
    match mode {
        LayoutMode::Wide => {
            let h = layout_split(false, seq![LayoutConstraint::Percentage(28), LayoutConstraint::Percentage(48), LayoutConstraint::Percentage(24)], body);
            PaneAreas { explorer: h[0], preview: h[1], inspector: h[2], status, mode }
        },
        LayoutMode::Stacked => {
            let c = layout_split(false, seq![LayoutConstraint::Percentage(34), LayoutConstraint::Percentage(66)], body);
            let r = layout_split(true, seq![LayoutConstraint::Percentage(62), LayoutConstraint::Percentage(38)], c[1]);
            PaneAreas { explorer: c[0], preview: r[0], inspector: r[1], status, mode }
        },
        LayoutMode::Rows => {
            let r = layout_split(true, seq![LayoutConstraint::Percentage(38), LayoutConstraint::Percentage(34), LayoutConstraint::Percentage(28)], body);
            PaneAreas { explorer: r[0], preview: r[1], inspector: r[2], status, mode }
        },
        LayoutMode::Compact => {
            let r = layout_split(true, seq![LayoutConstraint::Percentage(42), LayoutConstraint::Percentage(58)], body);
            PaneAreas { explorer: r[0], preview: r[1], inspector: r[1], status, mode }
        },
        LayoutMode::Micro => PaneAreas { explorer: body, preview: body, inspector: body, status, mode },
    }
}

/// Where the panes go in `area`.
pub fn pane_areas(area: PaneRect) -> (r: PaneAreas)
    ensures
        r == pane_areas_spec(area),
        r.mode == layout_mode_spec(area.width, area.height),
{
    let vc = vec![LayoutConstraint::Min(0), LayoutConstraint::Length(1)];
    assert(vc@ =~= seq![LayoutConstraint::Min(0), LayoutConstraint::Length(1)]);
    let vertical = split_area(true, &vc, area);
    let body = vertical[0];
    let status = vertical[1];
    let mode = layout_mode(area.width, area.height);
    match mode {
        LayoutMode::Wide => {
            let cs = vec![LayoutConstraint::Percentage(28), LayoutConstraint::Percentage(48), LayoutConstraint::Percentage(24)];
            assert(cs@ =~= seq![LayoutConstraint::Percentage(28), LayoutConstraint::Percentage(48), LayoutConstraint::Percentage(24)]);
            let h = split_area(false, &cs, body);
            PaneAreas { explorer: h[0], preview: h[1], inspector: h[2], status, mode }
        },
        LayoutMode::Stacked => {
            let cs = vec![LayoutConstraint::Percentage(34), LayoutConstraint::Percentage(66)];
            assert(cs@ =~= seq![LayoutConstraint::Percentage(34), LayoutConstraint::Percentage(66)]);
            let c = split_area(false, &cs, body);
            let rs = vec![LayoutConstraint::Percentage(62), LayoutConstraint::Percentage(38)];
            assert(rs@ =~= seq![LayoutConstraint::Percentage(62), LayoutConstraint::Percentage(38)]);
            let r = split_area(true, &rs, c[1]);
            PaneAreas { explorer: c[0], preview: r[0], inspector: r[1], status, mode }
        },
        LayoutMode::Rows => {
            let cs = vec![LayoutConstraint::Percentage(38), LayoutConstraint::Percentage(34), LayoutConstraint::Percentage(28)];
            assert(cs@ =~= seq![LayoutConstraint::Percentage(38), LayoutConstraint::Percentage(34), LayoutConstraint::Percentage(28)]);
            let r = split_area(true, &cs, body);
            PaneAreas { explorer: r[0], preview: r[1], inspector: r[2], status, mode }
        },
        LayoutMode::Compact => {
            let cs = vec![LayoutConstraint::Percentage(42), LayoutConstraint::Percentage(58)];
            assert(cs@ =~= seq![LayoutConstraint::Percentage(42), LayoutConstraint::Percentage(58)]);
            let r = split_area(true, &cs, body);
            PaneAreas { explorer: r[0], preview: r[1], inspector: r[1], status, mode }
        },
        LayoutMode::Micro => PaneAreas { explorer: body, preview: body, inspector: body, status, mode },
    }
}

/// A number right-aligned in four columns; longer numbers are written in full.
pub open spec fn right_aligned4(n: nat) -> Seq<char> {
    let d = decimal(n);
    if d.len() >= 4 { d } else { spaces((4 - d.len()) as nat) + d }
}

/// The gutter in front of preview line `number`: shown for code with line numbers on.
pub open spec fn gutter_spec(kind: PreviewKind, show_line_numbers: bool, number: nat) -> Option<Seq<char>> {
    if show_line_numbers && kind == PreviewKind::Code {
        Some(right_aligned4(number) + " │ "@)
    } else {
        None
    }
}

/// The gutter in front of preview line `number`, if it has one.
pub fn line_number_gutter(kind: PreviewKind, show_line_numbers: bool, number: usize) -> (r: Option<String>)
    ensures
        opt_view(r) == gutter_spec(kind, show_line_numbers, number as nat),
{
    if !(show_line_numbers && kind == PreviewKind::Code) {
        return None;
    }
    let d = decimal_string(number as u64);
    let n = chars_of(d.as_str()).len();
    let mut s = String::new();
    if n < 4 {
        push_spaces(&mut s, 4 - n);
    }
    append_str(&mut s, d.as_str());
    append_str(&mut s, " │ ");
    proof {
        if n >= 4 {
            assert(spaces(0) =~= Seq::<char>::empty());
        }
        assert(s@ =~= right_aligned4(number as nat) + " │ "@);
    }
    Some(s)
}

/// The prompt of the command line: `/` and the search text, `:` and the command text, or
/// nothing while browsing.
pub open spec fn prompt_spec(s: AppStateView) -> Seq<char> {
    match s.input_mode {
        InputMode::Search => seq!['/'] + s.search_input,
        InputMode::Command => seq![':'] + s.command_input,
        InputMode::Normal => Seq::empty(),
    }
}

pub fn current_prompt(state: &AppState) -> (r: String)
    ensures
        r@ == prompt_spec(state@),
{
    let mut r = String::new();
    match state.input_mode {
        InputMode::Search => {
            push_char(&mut r, '/');
            append_str(&mut r, state.search_input.as_str());
        },
        InputMode::Command => {
            push_char(&mut r, ':');
            append_str(&mut r, state.command_input.as_str());
        },
        InputMode::Normal => {},
    }
    proof {
        assert(r@ =~= prompt_spec(state@));
    }
    r
}

/// The width a terminal gives a text (what `unicode_width`'s `UnicodeWidthStr::width` returns).
pub uninterp spec fn text_width(s: Seq<char>) -> usize;

/// `UnicodeWidthStr::width`: the columns `s` takes in a terminal.
#[verifier::external_body]
pub(crate) fn display_width(s: &str) -> (r: usize)
    ensures
        r == text_width(s@),
{
    unicode_width::UnicodeWidthStr::width(s)
}

/// How many leading characters fit with an ellipsis after them, scanning from `i`.
pub open spec fn fit_from(t: Seq<char>, max: usize, i: int) -> int
    decreases t.len() - i,
{
    if i < 0 || i >= t.len() {
        if i < 0 { 0 } else { t.len() as int }
    } else if text_width(t.take(i + 1)) + 1 > max {
        i
    } else {
        fit_from(t, max, i + 1)
    }
}

/// `t` cut to `max` columns with a trailing ellipsis where it does not fit.
pub open spec fn truncate_width_spec(t: Seq<char>, max: usize) -> Seq<char> {
    if max == 0 {
        Seq::empty()
    } else if text_width(t) <= max {
        t
    } else if max <= 1 {
        seq!['…']
    } else {
        t.take(fit_from(t, max, 0)) + seq!['…']
    }
}

pub fn truncate_to_width(text: &str, max_width: usize) -> (r: String)
    ensures
        r@ == truncate_width_spec(text@, max_width),
{
    if max_width == 0 {
        return String::new();
    }
    if display_width(text) <= max_width {
        return String::from_str(text);
    }
    if max_width <= 1 {
        let mut r = String::new();
        push_char(&mut r, '…');
        assert(r@ =~= seq!['…']);
        return r;
    }
    let chars = chars_of(text);
    let mut out: Vec<char> = Vec::new();
    let mut i: usize = 0;
    while i < chars.len()
        invariant
            i <= chars.len(),
            chars@ == text@,
            out@ == chars@.take(i as int),
            fit_from(text@, max_width, 0) == fit_from(text@, max_width, i as int),
        ensures
            out@ == chars@.take(fit_from(text@, max_width, 0)),
        decreases chars.len() - i,
    {
        let mut next = out.clone();
        next.push(chars[i]);
        assert(next@ =~= chars@.take(i + 1));
        let s = string_from(&next);
        let w = display_width(s.as_str());
        if w >= max_width {
            break;
        }
        out = next;
        i = i + 1;
    }
    out.push('…');
    string_from(&out)
}

/// A footer entry: the keys joined by `/`, a space and the label.
pub open spec fn footer_item(b: KeyBindingView) -> Seq<char> {
    join(b.keys, seq!['/']) + seq![' '] + b.label
}

pub open spec fn footer_items(bs: Seq<KeyBindingView>) -> Seq<Seq<char>> {
    bs.map_values(|b: KeyBindingView| footer_item(b))
}

/// How many footer bindings fit a status line of `width` columns.
pub open spec fn footer_count(width: u16) -> nat {
    if width >= 108 { 6 } else if width >= 84 { 4 } else { 3 }
}

/// The left part of the status line: the prompt while typing, else the first footer
/// bindings joined by ` | `.
pub open spec fn status_left_spec(s: AppStateView, width: u16) -> Seq<char> {
    match s.input_mode {
        InputMode::Search | InputMode::Command => prompt_spec(s),
        InputMode::Normal => {
            let fs = footer_spec(s);
            let n = if fs.len() < footer_count(width) { fs.len() } else { footer_count(width) };
            join(footer_items(fs.take(n as int)), seq![' ', '|', ' '])
        },
    }
}

pub open spec fn selected_number(s: AppStateView) -> nat {
    match s.selected {
        Some(i) => (i + 1) as nat,
        None => 0,
    }
}

/// The right part of the status line: a hint while typing, the filter while filtering, the
/// last status message, or the context, sort and position.
pub open spec fn status_right_spec(s: AppStateView, width: u16) -> Seq<char> {
    if s.input_mode == InputMode::Command {
        "命令: help | sort name | sort mtime | bookmark add [name] | note clear"@
    } else if s.input_mode == InputMode::Search {
        "搜索名称 / path / 备注 / 摘要，Enter 应用，Esc 清空"@
    } else if s.search_input.len() > 0 {
        if width >= 96 {
            "过滤中: "@ + s.search_input + "  Esc 清除  / 修改  "@ + decimal(selected_number(s)) + seq!['/'] + decimal(s.filtered.len())
        } else {
            "过滤中: "@ + s.search_input + "  Esc 清除"@
        }
    } else if s.status.len() == 0 {
        if width >= 84 {
            context_label_spec(help_context_spec(s)) + "  排序:"@ + sort_mode_label_spec(s.sort_mode) + "  行号:"@
                + (if s.show_line_numbers { "开"@ } else { "关"@ }) + seq![' ', ' '] + decimal(selected_number(s)) + seq!['/']
                + decimal(s.filtered.len())
        } else {
            context_label_spec(help_context_spec(s)) + seq![' ', ' '] + decimal(selected_number(s)) + seq!['/'] + decimal(s.filtered.len())
        }
    } else {
        s.status
    }
}

/// The two parts fitted to `width` columns with a gap of two: untouched when they fit, else
/// the right part keeps up to half the width and the left part takes what remains.
pub open spec fn fitted_status(left: Seq<char>, right: Seq<char>, width: usize) -> (Seq<char>, Seq<char>) {
    let lw = text_width(left);
    let rw = text_width(right);
    if lw + rw + 2 <= width {
        (left, right)
    } else {
        let reserved: int = if rw < width / 2 { rw as int } else { (width / 2) as int };
        let left_budget: int = if width >= reserved + 2 { width - (reserved + 2) } else { 0 };
        let right_budget: int = if width >= left_budget + 2 { width - (left_budget + 2) } else { 0 };
        (truncate_width_spec(left, left_budget as usize), truncate_width_spec(right, right_budget as usize))
    }
}

fn selected_text(state: &AppState, s: &mut String)
    requires
        state_wf(state@),
    ensures
        final(s)@ == old(s)@ + decimal(selected_number(state@)) + seq!['/'] + decimal(state@.filtered.len()),
{
    let n: u64 = match state.selected {
        Some(i) => {
            assert(i < state.filtered.len());
            (i + 1) as u64
        },
        None => 0,
    };
    push_decimal(s, n);
    push_char(s, '/');
    push_decimal(s, state.filtered.len() as u64);
}

/// The status line texts for a terminal `width` columns wide.
pub fn status_texts(state: &AppState, width: u16) -> (r: (String, String))
    requires
        state_wf(state@),
    ensures
        (r.0@, r.1@) == fitted_status(status_left_spec(state@, width), status_right_spec(state@, width), width as usize),
{
    let left = match state.input_mode {
        InputMode::Search | InputMode::Command => current_prompt(state),
        InputMode::Normal => {
            let bindings = state.footer_bindings();
            let max_items: usize = if width >= 108 { 6 } else if width >= 84 { 4 } else { 3 };
            let n = if bindings.len() < max_items { bindings.len() } else { max_items };
            let mut items: Vec<String> = Vec::new();
            let mut i: usize = 0;
            while i < n
                invariant
                    i <= n <= bindings.len(),
                    views(items@) == footer_items(views(bindings@).take(i as int)),
                decreases n - i,
            {
                let mut item = join_strings(&bindings[i].keys, "/");
                push_char(&mut item, ' ');
                append_str(&mut item, bindings[i].label.as_str());
                proof {
                    reveal_strlit("/");
                    assert("/"@ =~= seq!['/']);
                    assert(item@ =~= footer_item(bindings@[i as int]@));
                }
                let ghost before = items@;
                items.push(item);
                assert(views(items@) =~= views(before).push(item@));
                assert(footer_items(views(bindings@).take(i + 1)) =~= footer_items(views(bindings@).take(i as int)).push(footer_item(bindings@[i as int]@)));
                i = i + 1;
            }
            let l = join_strings(&items, " | ");
            proof {
                reveal_strlit(" | ");
                assert(" | "@ =~= seq![' ', '|', ' ']);
            }
            l
        },
    };
    let searching = state.search_input.as_str().unicode_len() > 0;
    let has_status = state.status.as_str().unicode_len() > 0;
    let mut right = String::new();
    if state.input_mode == InputMode::Command {
        right = String::from_str("命令: help | sort name | sort mtime | bookmark add [name] | note clear");
    } else if state.input_mode == InputMode::Search {
        right = String::from_str("搜索名称 / path / 备注 / 摘要，Enter 应用，Esc 清空");
    } else if searching {
        append_str(&mut right, "过滤中: ");
        append_str(&mut right, state.search_input.as_str());
        if width >= 96 {
            append_str(&mut right, "  Esc 清除  / 修改  ");
            selected_text(state, &mut right);
        } else {
            append_str(&mut right, "  Esc 清除");
        }
    } else if !has_status {
        append_str(&mut right, context_label(state.current_help_context()));
        if width >= 84 {
            append_str(&mut right, "  排序:");
            append_str(&mut right, state.sort_mode_label());
            append_str(&mut right, "  行号:");
            append_str(&mut right, if state.show_line_numbers { "开" } else { "关" });
        }
        push_char(&mut right, ' ');
        push_char(&mut right, ' ');
        selected_text(state, &mut right);
    } else {
        right = state.status.clone();
    }
    proof {
        reveal_strlit("");
        assert(right@ =~= status_right_spec(state@, width));
    }
    let total: usize = width as usize;
    let lw = display_width(left.as_str());
    let rw = display_width(right.as_str());
    if lw as u128 + rw as u128 + 2 <= total as u128 {
        return (left, right);
    }
    let reserved: usize = if rw < total / 2 { rw } else { total / 2 };
    let left_budget: usize = if total >= reserved + 2 { total - (reserved + 2) } else { 0 };
    let right_budget: usize = if total >= left_budget + 2 { total - (left_budget + 2) } else { 0 };
    (truncate_to_width(left.as_str(), left_budget), truncate_to_width(right.as_str(), right_budget))
}

} // verus!
