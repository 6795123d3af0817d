//! The inspection card: its placement, its information rows and its scrolling.
use vstd::prelude::*;
use crate::domain::preview::{PreviewDocument, PreviewLine, PreviewModel, PreviewSpanView, PreviewWrapMode, preview_kind_label};
use crate::infra::fs::{size_label, size_label_spec};
use crate::surfaces::tui::app::input::{InputEvent, Key};
use crate::surfaces::tui::ui::{display_width, layout_split, split_area, text_width, LayoutConstraint, PaneRect};
use crate::text::{append_str, ascii_lower, decimal, pad_right, padded, push_decimal, push_spaces, spaces, to_ascii_lowercase, views};

verus! {

/// A screen rectangle.
#[derive(Debug, Clone, Copy, PartialEq, Eq, Structural)]
pub struct CardRect {
    pub x: u16,
    pub y: u16,
    pub width: u16,
    pub height: u16,
}

pub open spec fn sat_sub(a: u16, b: u16) -> u16 {
    if a >= b { (a - b) as u16 } else { 0 }
}

/// The card's width for a screen width: a margin that grows with the screen, at least 16
/// columns on narrow screens.
pub open spec fn card_width(w: u16) -> u16 {
    if w > 168 {
        sat_sub(w, 10)
    } else if w > 132 {
        sat_sub(w, 8)
    } else if w > 96 {
        sat_sub(w, 6)
    } else {
        let v = sat_sub(w, 2);
        if v > 16 { v } else { 16 }
    }
}

pub open spec fn card_height(h: u16) -> u16 {
    if h > 46 {
        sat_sub(h, 6)
    } else if h > 28 {
        sat_sub(h, 4)
    } else {
        let v = sat_sub(h, 2);
        if v > 10 { v } else { 10 }
    }
}

/// The card centred in `area`.
pub open spec fn centered_card_spec(area: CardRect) -> CardRect {
    let w = card_width(area.width);
    let h = card_height(area.height);
    CardRect {
        x: (area.x + sat_sub(area.width, w) / 2) as u16,
        y: (area.y + sat_sub(area.height, h) / 2) as u16,
        width: w,
        height: h,
    }
}

pub fn centered_card_rect(area: CardRect) -> (r: CardRect)
    requires
        area.x + area.width <= u16::MAX,
        area.y + area.height <= u16::MAX,
    ensures
        r == centered_card_spec(area),
{
    let width: u16 = if area.width > 168 {
        area.width - 10
    } else if area.width > 132 {
        area.width - 8
    } else if area.width > 96 {
        area.width - 6
    } else {
        let v: u16 = if area.width >= 2 { area.width - 2 } else { 0 };
        if v > 16 { v } else { 16 }
    };
    let height: u16 = if area.height > 46 {
        area.height - 6
    } else if area.height > 28 {
        area.height - 4
    } else {
        let v: u16 = if area.height >= 2 { area.height - 2 } else { 0 };
        if v > 10 { v } else { 10 }
    };
    let dx: u16 = if area.width >= width { (area.width - width) / 2 } else { 0 };
    let dy: u16 = if area.height >= height { (area.height - height) / 2 } else { 0 };
    CardRect { x: area.x + dx, y: area.y + dy, width, height }
}

/// A label padded to `label_width` characters, then the value, padded with spaces to
/// `total_width` columns.
pub open spec fn pad_pair_spec(label: Seq<char>, value: Seq<char>, label_width: nat, total_width: usize) -> Seq<char> {
    let combined = pad_right(label, label_width) + value;
    if text_width(combined) >= total_width {
        combined
    } else {
        combined + spaces((total_width - text_width(combined)) as nat)
    }
}

pub fn pad_pair(label: &str, value: &str, label_width: usize, total_width: usize) -> (r: String)
    ensures
        r@ == pad_pair_spec(label@, value@, label_width as nat, total_width),
{
    let mut combined = padded(label, label_width);
    append_str(&mut combined, value);
    let width = display_width(combined.as_str());
    if width >= total_width {
        combined
    } else {
        push_spaces(&mut combined, total_width - width);
        combined
    }
}

/// How many columns of rows a card `width` columns wide shows.
pub open spec fn info_columns(width: u16) -> nat {
    if width >= 132 { 3 } else if width >= 84 { 2 } else { 1 }
}

/// The row texts from pair `i` on: up to `columns` padded pairs per row, two spaces between.
pub open spec fn info_rows_from(pairs: Seq<(Seq<char>, Seq<char>)>, columns: nat, cell: usize, i: int) -> Seq<Seq<Seq<char>>>
    decreases if i < pairs.len() { pairs.len() - i } else { 0 },
{
    if i < 0 || i >= pairs.len() || columns == 0 {
        Seq::empty()
    } else {
        seq![info_row(pairs, columns, cell, i)] + info_rows_from(pairs, columns, cell, i + columns)
    }
}

/// One row: the spans of the pairs at `i..i+columns` that exist.
pub open spec fn info_row(pairs: Seq<(Seq<char>, Seq<char>)>, columns: nat, cell: usize, i: int) -> Seq<Seq<char>> {
    info_row_from(pairs, columns, cell, i, 0)
}

pub open spec fn info_row_from(pairs: Seq<(Seq<char>, Seq<char>)>, columns: nat, cell: usize, i: int, c: nat) -> Seq<Seq<char>>
    decreases columns - c,
{
    if c >= columns || i + c >= pairs.len() {
        Seq::empty()
    } else {
        let content = pad_pair_spec(pairs[i + c].0, pairs[i + c].1, 8, if cell >= 2 { (cell - 2) as usize } else { 0 });
        let spans = if c + 1 < columns { seq![content, seq![' ', ' ']] } else { seq![content] };
        spans + info_row_from(pairs, columns, cell, i, c + 1)
    }
}

/// The information rows of a card `width` columns wide, each a list of span texts.
pub open spec fn info_lines_spec(pairs: Seq<(Seq<char>, Seq<char>)>, width: u16) -> Seq<Seq<Seq<char>>> {
    let columns = info_columns(width);
    let cell: usize = (sat_sub(width, 2) as nat / columns) as usize;
    info_rows_from(pairs, columns, cell, 0)
}

fn info_row_exec(pairs: &Vec<(String, String)>, columns: usize, cell: usize, i: usize) -> (r: Vec<String>)
    requires
        1 <= columns <= 3,
        i < pairs.len(),
    ensures
        views(r@) == info_row(views(pairs@), columns as nat, cell, i as int),
{
    let mut spans: Vec<String> = Vec::new();
    let mut c: usize = 0;
    let budget: usize = if cell >= 2 { cell - 2 } else { 0 };
    while c < columns && c < pairs.len() - i
        invariant
            1 <= columns <= 3,
            c <= columns,
            i < pairs.len(),
            budget == (if cell >= 2 { (cell - 2) as usize } else { 0 }),
            info_row(views(pairs@), columns as nat, cell, i as int)
                == views(spans@) + info_row_from(views(pairs@), columns as nat, cell, i as int, c as nat),
        decreases columns - c,
    {
        let content = pad_pair(pairs[i + c].0.as_str(), pairs[i + c].1.as_str(), 8, budget);
        let ghost before = spans@;
        let ghost cv = content@;
        let ghost rest = info_row_from(views(pairs@), columns as nat, cell, i as int, (c + 1) as nat);
        spans.push(content);
        assert(views(spans@) =~= views(before).push(cv));
        if c + 1 < columns {
            let gap = String::from_str("  ");
            proof {
                reveal_strlit("  ");
                assert(gap@ =~= seq![' ', ' ']);
            }
            let ghost mid = spans@;
            spans.push(gap);
            assert(views(spans@) =~= views(mid).push(seq![' ', ' ']));
            assert(views(spans@) =~= views(before) + seq![cv, seq![' ', ' ']]);
        } else {
            assert(views(spans@) =~= views(before) + seq![cv]);
        }
        assert(views(spans@) + rest =~= views(before) + info_row_from(views(pairs@), columns as nat, cell, i as int, c as nat));
        c = c + 1;
    }
    assert(views(spans@) + Seq::<Seq<char>>::empty() =~= views(spans@));
    spans
}

/// The information rows of a card `width` columns wide.
pub fn info_pairs_to_lines(pairs: &Vec<(String, String)>, width: u16) -> (r: Vec<Vec<String>>)
    ensures
        r@.map_values(|l: Vec<String>| views(l@)) == info_lines_spec(views(pairs@), width),
{
    let columns: usize = if width >= 132 { 3 } else if width >= 84 { 2 } else { 1 };
    let inner: u16 = if width >= 2 { width - 2 } else { 0 };
    let cell: usize = (inner as usize) / columns;
    let mut lines: Vec<Vec<String>> = Vec::new();
    let mut i: usize = 0;
    while i < pairs.len()
        invariant
            1 <= columns <= 3,
            columns as nat == info_columns(width),
            cell == (sat_sub(width, 2) as nat / columns as nat) as usize,
            info_lines_spec(views(pairs@), width) == lines@.map_values(|l: Vec<String>| views(l@)) + info_rows_from(views(pairs@), columns as nat, cell, i as int),
        decreases pairs.len() - i,
    {
        let row = info_row_exec(pairs, columns, cell, i);
        let ghost before = lines@;
        lines.push(row);
        assert(lines@.map_values(|l: Vec<String>| views(l@)) =~= before.map_values(|l: Vec<String>| views(l@)).push(views(row@)));
        if pairs.len() - i <= columns {
            assert(info_rows_from(views(pairs@), columns as nat, cell, i + columns) =~= Seq::<Seq<Seq<char>>>::empty());
            assert(lines@.map_values(|l: Vec<String>| views(l@)) + Seq::<Seq<Seq<char>>>::empty() =~= lines@.map_values(|l: Vec<String>| views(l@)));
            return lines;
        }
        i = i + columns;
    }
    assert(info_rows_from(views(pairs@), columns as nat, cell, i as int) =~= Seq::<Seq<Seq<char>>>::empty());
    assert(lines@.map_values(|l: Vec<String>| views(l@)) + Seq::<Seq<Seq<char>>>::empty() =~= lines@.map_values(|l: Vec<String>| views(l@)));
    lines
}


/// The basic rows of a card: kind, size, modification time, and for directories the
/// counts of subdirectories and files.
pub open spec fn base_pairs_spec(is_dir: bool, size: u64, modified: Seq<char>, counts: Option<(usize, usize)>) -> Seq<(Seq<char>, Seq<char>)> {
    seq![
        ("类型"@, if is_dir { "目录"@ } else { "文件"@ }),
        ("大小"@, size_label_spec(Some(size))),
        ("修改"@, modified),
    ] + match counts {
        Some((d, f)) => seq![("子项"@, "目录 "@ + decimal(d as nat) + " / 文件 "@ + decimal(f as nat))],
        None => Seq::empty(),
    }
}

pub fn card_base_pairs(is_dir: bool, size: u64, modified: &str, counts: Option<(usize, usize)>) -> (r: Vec<(String, String)>)
    ensures
        views(r@) == base_pairs_spec(is_dir, size, modified@, counts),
{
    let mut r: Vec<(String, String)> = Vec::new();
    r.push((String::from_str("类型"), String::from_str(if is_dir { "目录" } else { "文件" })));
    r.push((String::from_str("大小"), size_label(Some(size))));
    r.push((String::from_str("修改"), String::from_str(modified)));
    match counts {
        Some((d, f)) => {
            let mut t = String::from_str("目录 ");
            push_decimal(&mut t, d as u64);
            append_str(&mut t, " / 文件 ");
            push_decimal(&mut t, f as u64);
            r.push((String::from_str("子项"), t));
        },
        None => {},
    }
    assert(views(r@) =~= base_pairs_spec(is_dir, size, modified@, counts));
    r
}

/// The rows after merging preview metadata from position `i` on: a row whose key, in ASCII
/// lower case, was seen before is skipped.
pub open spec fn merge_from(
    pairs: Seq<(Seq<char>, Seq<char>)>,
    seen: Seq<Seq<char>>,
    md: Seq<(Seq<char>, Seq<char>)>,
    i: int,
) -> Seq<(Seq<char>, Seq<char>)>
    decreases md.len() - i,
{
    if i < 0 || i >= md.len() {
        pairs
    } else if seen.contains(ascii_lower(md[i].0)) {
        merge_from(pairs, seen, md, i + 1)
    } else {
        merge_from(pairs.push(md[i]), seen.push(ascii_lower(md[i].0)), md, i + 1)
    }
}

/// What the preview adds to a card: its rows, title, warnings, lines and wrapping.
pub struct CardPreview {
    pub info_pairs: Vec<(String, String)>,
    pub title: String,
    pub warnings: Vec<String>,
    pub lines: Vec<PreviewLine>,
    pub wrap: bool,
}

pub struct CardPreviewView {
    pub info_pairs: Seq<(Seq<char>, Seq<char>)>,
    pub title: Seq<char>,
    pub warnings: Seq<Seq<char>>,
    pub lines: Seq<Seq<PreviewSpanView>>,
    pub wrap: bool,
}

impl View for CardPreview {
    type V = CardPreviewView;

    open spec fn view(&self) -> CardPreviewView {
        CardPreviewView {
            info_pairs: views(self.info_pairs@),
            title: self.title@,
            warnings: views(self.warnings@),
            lines: views(self.lines@),
            wrap: self.wrap,
        }
    }
}

pub open spec fn message_line(t: Seq<char>) -> Seq<PreviewSpanView> {
    crate::infra::providers::plain_line_of(t)
}

/// A card's preview part: for a document, the default document's name or the kind in the
/// title, the previewer row, the new metadata rows, the warnings and lines (a placeholder
/// when there are none); for a failure or a preview still loading, a single message line.
pub open spec fn card_preview_spec(pairs: Seq<(Seq<char>, Seq<char>)>, source: Option<Seq<char>>, preview: crate::domain::preview::PreviewModelView) -> CardPreviewView {
    match preview {
        crate::domain::preview::PreviewModelView::Document(d) => {
            let p1 = match source {
                Some(s) => pairs.push(("默认文档"@, s)),
                None => pairs,
            };
            let title = match source {
                Some(s) => s + " 预览"@,
                None => preview_kind_label(d.kind) + " 预览"@,
            };
            let p2 = p1.push(("预览"@, d.provider_name + if d.degraded { "（已降级）"@ } else { Seq::empty() }));
            CardPreviewView {
                info_pairs: merge_from(p2, seq![ascii_lower("大小"@)], d.metadata, 0),
                title,
                warnings: d.warnings,
                lines: if d.lines.len() == 0 { seq![message_line("（空预览）"@)] } else { d.lines },
                wrap: d.wrap_mode == PreviewWrapMode::Wrap,
            }
        },
        crate::domain::preview::PreviewModelView::Failed { path, message } => CardPreviewView {
            info_pairs: pairs,
            title: "预览"@,
            warnings: Seq::empty(),
            lines: seq![message_line("预览失败: "@ + message)],
            wrap: true,
        },
        crate::domain::preview::PreviewModelView::Loading { path } => CardPreviewView {
            info_pairs: pairs,
            title: "预览"@,
            warnings: Seq::empty(),
            lines: seq![message_line("预览加载中..."@)],
            wrap: true,
        },
    }
}

fn contains_key(seen: &Vec<String>, k: &str) -> (r: bool)
    ensures
        r == views(seen@).contains(k@),
{
    crate::infra::providers::has_string(seen, k)
}

fn merge_metadata(pairs: &mut Vec<(String, String)>, md: &Vec<(String, String)>)
    ensures
        views(final(pairs)@) == merge_from(views(old(pairs)@), seq![ascii_lower("大小"@)], views(md@), 0),
{
    let mut seen: Vec<String> = Vec::new();
    seen.push(to_ascii_lowercase("大小"));
    assert(views(seen@) =~= seq![ascii_lower("大小"@)]);
    let ghost p0 = views(pairs@);
    let mut i: usize = 0;
    while i < md.len()
        invariant
            i <= md.len(),
            merge_from(p0, seq![ascii_lower("大小"@)], views(md@), 0) == merge_from(views(pairs@), views(seen@), views(md@), i as int),
        decreases md.len() - i,
    {
        let k = to_ascii_lowercase(md[i].0.as_str());
        if !contains_key(&seen, k.as_str()) {
            let ghost bp = pairs@;
            let ghost bs = seen@;
            pairs.push((md[i].0.clone(), md[i].1.clone()));
            seen.push(k);
            assert(views(pairs@) =~= views(bp).push(views(md@)[i as int]));
            assert(views(seen@) =~= views(bs).push(ascii_lower(views(md@)[i as int].0)));
        }
        i = i + 1;
    }
}

fn message(t: String) -> (r: Vec<PreviewLine>)
    ensures
        views(r@) == seq![message_line(t@)],
{
    let mut v: Vec<PreviewLine> = Vec::new();
    v.push(PreviewLine::plain(t.as_str()));
    assert(views(v@) =~= seq![message_line(t@)]);
    v
}

/// The preview part of a card, given its basic rows, the default document shown (if any)
/// and the preview model.
pub fn card_preview(pairs: Vec<(String, String)>, source: Option<String>, preview: PreviewModel) -> (r: CardPreview)
    ensures
        r@ == card_preview_spec(views(pairs@), crate::domain::preview::opt_view(source), preview@),
{
    let ghost p0 = views(pairs@);
    let ghost src = crate::domain::preview::opt_view(source);
    let mut pairs = pairs;
    match preview {
        PreviewModel::Document(d) => {
            let ghost dv = d@;
            let title = match &source {
                Some(s) => {
                    let mut t = s.clone();
                    append_str(&mut t, " 预览");
                    t
                },
                None => {
                    let mut t = String::from_str(d.kind.label());
                    append_str(&mut t, " 预览");
                    t
                },
            };
            match source {
                Some(s) => pairs.push((String::from_str("默认文档"), s)),
                None => {},
            }
            let ghost p1 = match src {
                Some(s) => p0.push(("默认文档"@, s)),
                None => p0,
            };
            assert(views(pairs@) =~= p1);
            let mut label = d.provider_name.clone();
            if d.degraded {
                append_str(&mut label, "（已降级）");
            }
            proof {
                reveal_strlit("");
                assert(label@ =~= d.provider_name@ + if d.degraded { "（已降级）"@ } else { Seq::<char>::empty() });
            }
            let ghost lv = label@;
            pairs.push((String::from_str("预览"), label));
            assert(views(pairs@) =~= p1.push(("预览"@, lv)));
            merge_metadata(&mut pairs, &d.metadata);
            let wrap = d.wrap_mode.should_wrap();
            let lines = if d.lines.len() == 0 {
                message(String::from_str("（空预览）"))
            } else {
                d.lines
            };
            CardPreview { info_pairs: pairs, title, warnings: d.warnings, lines, wrap }
        },
        PreviewModel::Failed { path, message: m } => {
            let mut t = String::from_str("预览失败: ");
            append_str(&mut t, m.as_str());
            let warnings: Vec<String> = Vec::new();
            assert(views(warnings@) =~= Seq::<Seq<char>>::empty());
            CardPreview { info_pairs: pairs, title: String::from_str("预览"), warnings, lines: message(t), wrap: true }
        },
        PreviewModel::Loading { path } => {
            let warnings: Vec<String> = Vec::new();
            assert(views(warnings@) =~= Seq::<Seq<char>>::empty());
            CardPreview {
                info_pairs: pairs,
                title: String::from_str("预览"),
                warnings,
                lines: message(String::from_str("预览加载中...")),
                wrap: true,
            }
        },
    }
}

/// What a key press or wheel turn does to the card.
#[derive(Debug, Clone, Copy, PartialEq, Eq, Structural)]
pub enum CardStep {
    Quit,
    Scroll(u16),
}

pub open spec fn sat_add(a: u16, b: u16) -> u16 {
    if a + b <= u16::MAX { (a + b) as u16 } else { u16::MAX }
}

/// `q` or Esc closes the card; `j`/Down and `k`/Up scroll a line, PageDown/PageUp ten, the
/// wheel three, all saturating; other events leave it as it is.
pub open spec fn card_step_spec(scroll: u16, e: InputEvent) -> CardStep {
    match e {
        InputEvent::Key { key, ctrl } => if key == Key::Char('q') || key == Key::Esc {
            CardStep::Quit
        } else if key == Key::Char('j') || key == Key::Down {
            CardStep::Scroll(sat_add(scroll, 1))
        } else if key == Key::Char('k') || key == Key::Up {
            CardStep::Scroll(sat_sub(scroll, 1))
        } else if key == Key::PageDown {
            CardStep::Scroll(sat_add(scroll, 10))
        } else if key == Key::PageUp {
            CardStep::Scroll(sat_sub(scroll, 10))
        } else {
            CardStep::Scroll(scroll)
        },
        InputEvent::ScrollDown => CardStep::Scroll(sat_add(scroll, 3)),
        InputEvent::ScrollUp => CardStep::Scroll(sat_sub(scroll, 3)),
        InputEvent::Other => CardStep::Scroll(scroll),
    }
}

pub fn card_step(scroll: u16, e: InputEvent) -> (r: CardStep)
    ensures
        r == card_step_spec(scroll, e),
{
    match e {
        InputEvent::Key { key, ctrl } => if key == Key::Char('q') || key == Key::Esc {
            CardStep::Quit
        } else if key == Key::Char('j') || key == Key::Down {
            CardStep::Scroll(scroll.saturating_add(1))
        } else if key == Key::Char('k') || key == Key::Up {
            CardStep::Scroll(scroll.saturating_sub(1))
        } else if key == Key::PageDown {
            CardStep::Scroll(scroll.saturating_add(10))
        } else if key == Key::PageUp {
            CardStep::Scroll(scroll.saturating_sub(10))
        } else {
            CardStep::Scroll(scroll)
        },
        InputEvent::ScrollDown => CardStep::Scroll(scroll.saturating_add(3)),
        InputEvent::ScrollUp => CardStep::Scroll(scroll.saturating_sub(3)),
        InputEvent::Other => CardStep::Scroll(scroll),
    }
}

/// The label of the default document a directory card previews: its file name.
pub fn document_label(doc_path: &str) -> (r: String)
    ensures
        r@ == match crate::paths::path_file_name_spec(doc_path@) {
            Some(n) => n,
            None => "项目说明"@,
        },
{
    match crate::paths::path_file_name(doc_path) {
        Some(n) => n,
        None => String::from_str("项目说明"),
    }
}


/// A row under the card's title.
#[derive(Debug, Clone)]
pub enum CardHeaderRow {
    Summary(String),
    Note(String),
    /// Shown when there is neither summary nor note.
    Hint(String),
}

pub enum CardHeaderRowView {
    Summary(Seq<char>),
    Note(Seq<char>),
    Hint(Seq<char>),
}

impl View for CardHeaderRow {
    type V = CardHeaderRowView;

    open spec fn view(&self) -> CardHeaderRowView {
        match self {
            CardHeaderRow::Summary(s) => CardHeaderRowView::Summary(s@),
            CardHeaderRow::Note(s) => CardHeaderRowView::Note(s@),
            CardHeaderRow::Hint(s) => CardHeaderRowView::Hint(s@),
        }
    }
}

/// The rows under the title: the summary and the note where present, else a hint that
/// project documents are previewed first.
pub open spec fn header_rows_spec(summary: Option<Seq<char>>, note: Option<Seq<char>>) -> Seq<CardHeaderRowView> {
    let s = match summary {
        Some(v) => seq![CardHeaderRowView::Summary(v)],
        None => Seq::empty(),
    };
    let n = match note {
        Some(v) => seq![CardHeaderRowView::Note(v)],
        None => Seq::empty(),
    };
    if summary is None && note is None {
        seq![CardHeaderRowView::Hint("README / AGENTS / GUIDE 等说明文档优先预览"@)]
    } else {
        s + n
    }
}

pub fn card_header_rows(summary: Option<String>, note: Option<String>) -> (r: Vec<CardHeaderRow>)
    ensures
        views(r@) == header_rows_spec(crate::domain::preview::opt_view(summary), crate::domain::preview::opt_view(note)),
{
    let none = summary.is_none() && note.is_none();
    let mut r: Vec<CardHeaderRow> = Vec::new();
    if none {
        r.push(CardHeaderRow::Hint(String::from_str("README / AGENTS / GUIDE 等说明文档优先预览")));
        assert(views(r@) =~= header_rows_spec(None, None));
        return r;
    }
    let ghost sv = crate::domain::preview::opt_view(summary);
    let ghost nv = crate::domain::preview::opt_view(note);
    match summary {
        Some(v) => r.push(CardHeaderRow::Summary(v)),
        None => {},
    }
    let ghost mid = views(r@);
    assert(mid =~= match sv { Some(v) => seq![CardHeaderRowView::Summary(v)], None => Seq::<CardHeaderRowView>::empty() });
    match note {
        Some(v) => r.push(CardHeaderRow::Note(v)),
        None => {},
    }
    assert(views(r@) =~= header_rows_spec(sv, nv));
    r
}

/// The card's sections top to bottom: the header and the information rows (each with a
/// border row, at least 3 high), the warnings with a border row where there are any, the
/// preview taking the rest, and the key line.
pub open spec fn card_sections_spec(header: u16, info: u16, warnings: u16) -> Seq<LayoutConstraint> {
    let h = if header + 1 >= 3 { (header + 1) as u16 } else { 3u16 };
    let i = if info + 1 >= 3 { (info + 1) as u16 } else { 3u16 };
    let base = seq![LayoutConstraint::Length(h), LayoutConstraint::Length(i)];
    let with_w = if warnings > 0 { base.push(LayoutConstraint::Length((warnings + 1) as u16)) } else { base };
    with_w + seq![LayoutConstraint::Min(0), LayoutConstraint::Length(1)]
}

/// How the card's inner area `area` is cut, given the header, information and warning line
/// counts.
pub fn card_sections(area: PaneRect, header: u16, info: u16, warnings: u16) -> (r: Vec<PaneRect>)
    requires
        header < u16::MAX,
        info < u16::MAX,
        warnings < u16::MAX,
    ensures
        r@ == layout_split(true, card_sections_spec(header, info, warnings), area),
        r.len() == card_sections_spec(header, info, warnings).len(),
{
    let h = if header + 1 >= 3 { header + 1 } else { 3 };
    let i = if info + 1 >= 3 { info + 1 } else { 3 };
    let mut cs = vec![LayoutConstraint::Length(h), LayoutConstraint::Length(i)];
    if warnings > 0 {
        cs.push(LayoutConstraint::Length(warnings + 1));
    }
    cs.push(LayoutConstraint::Min(0));
    cs.push(LayoutConstraint::Length(1));
    assert(cs@ =~= card_sections_spec(header, info, warnings));
    split_area(true, &cs, area)
}

} // verus!
