use lsz::surfaces::tui::ui::{line_number_gutter, pane_areas, PaneRect};
use lsz::surfaces::detail_card::{card_header_rows, card_sections, CardHeaderRow};
use lsz::cli::help::help_page_lines;
use lsz::surfaces::detail_card::{
    card_base_pairs, card_preview, card_step, centered_card_rect, info_pairs_to_lines, pad_pair, CardRect, CardStep,
};
use lsz::surfaces::plain_list::{compact_suffix, list_line, name_column_width};
use lsz::surfaces::tui::app::input::{InputEvent, Key};
use lsz::surfaces::tui::app::state::{AppState, InputMode};
use lsz::surfaces::tui::start::start_location;
use lsz::surfaces::tui::ui::{current_prompt, layout_mode, status_texts, truncate_to_width, LayoutMode};
use lsz::domain::preview::{PreviewDocument, PreviewKind, PreviewLine, PreviewModel, PreviewWrapMode};

#[test]
fn layout_modes_follow_terminal_size() {
    assert_eq!(layout_mode(160, 40), LayoutMode::Wide);
    assert_eq!(layout_mode(110, 40), LayoutMode::Stacked);
    assert_eq!(layout_mode(80, 32), LayoutMode::Rows);
    assert_eq!(layout_mode(60, 14), LayoutMode::Compact);
    assert_eq!(layout_mode(200, 10), LayoutMode::Micro);
}

#[test]
fn prompts_and_status_line() {
    let mut state = AppState::new("/tmp".to_string(), None);
    assert_eq!(current_prompt(&state), "");
    state.input_mode = InputMode::Command;
    assert_eq!(current_prompt(&state), ":");
    state.command_input = "sort".to_string();
    assert_eq!(current_prompt(&state), ":sort");
    let (left, right) = status_texts(&state, 200);
    assert_eq!(left, ":sort");
    assert!(right.starts_with("命令: help"));
    state.input_mode = InputMode::Normal;
    let (_, right) = status_texts(&state, 200);
    assert!(right.contains("0/0"));
    let (left, right) = status_texts(&state, 10);
    assert!(left.chars().count() <= 10);
    assert!(right.ends_with('…') || right.is_empty() || right.chars().count() <= 5);
}

#[test]
fn truncation_by_display_width() {
    assert_eq!(truncate_to_width("abcdef", 0), "");
    assert_eq!(truncate_to_width("abcdef", 6), "abcdef");
    assert_eq!(truncate_to_width("abcdef", 1), "…");
    assert_eq!(truncate_to_width("abcdef", 4), "abc…");
    assert_eq!(truncate_to_width("宽字符", 4), "宽…");
}

#[test]
fn card_geometry_and_rows() {
    let r = centered_card_rect(CardRect { x: 0, y: 0, width: 100, height: 30 });
    assert_eq!(r, CardRect { x: 3, y: 2, width: 94, height: 26 });
    let r = centered_card_rect(CardRect { x: 0, y: 0, width: 10, height: 5 });
    assert_eq!(r, CardRect { x: 0, y: 0, width: 16, height: 10 });
    assert_eq!(pad_pair("类型", "目录", 8, 14), "类型      目录");
    let pairs = card_base_pairs(true, 2048, "2024-01-01 10:00", Some((2, 3)));
    assert_eq!(pairs[0], ("类型".to_string(), "目录".to_string()));
    assert_eq!(pairs[1], ("大小".to_string(), "2.0 KB".to_string()));
    assert_eq!(pairs[3], ("子项".to_string(), "目录 2 / 文件 3".to_string()));
    let lines = info_pairs_to_lines(&pairs, 90);
    assert_eq!(lines.len(), 2);
    assert_eq!(lines[0].len(), 3);
    assert_eq!(lines[1].len(), 3);
    assert_eq!(card_step(0, InputEvent::Key { key: Key::Char('k'), ctrl: false }), CardStep::Scroll(0));
    assert_eq!(card_step(5, InputEvent::Key { key: Key::PageDown, ctrl: false }), CardStep::Scroll(15));
    assert_eq!(card_step(u16::MAX, InputEvent::ScrollDown), CardStep::Scroll(u16::MAX));
    assert_eq!(card_step(5, InputEvent::Key { key: Key::Esc, ctrl: false }), CardStep::Quit);
}

#[test]
fn card_merges_preview_metadata_once() {
    let doc = PreviewDocument {
        kind: PreviewKind::Text,
        title: "a".to_string(),
        subtitle: None,
        provider_name: "文本".to_string(),
        degraded: true,
        metadata: vec![("大小".to_string(), "1 B".to_string()), ("MIME".to_string(), "text/plain".to_string()), ("mime".to_string(), "x".to_string())],
        warnings: vec!["w".to_string()],
        actions: Vec::new(),
        wrap_mode: PreviewWrapMode::NoWrap,
        lines: Vec::new(),
        first_line_number: 1,
    };
    let p = card_preview(Vec::new(), Some("README.md".to_string()), PreviewModel::Document(doc));
    assert_eq!(p.title, "README.md 预览");
    assert_eq!(
        p.info_pairs,
        vec![
            ("默认文档".to_string(), "README.md".to_string()),
            ("预览".to_string(), "文本（已降级）".to_string()),
            ("MIME".to_string(), "text/plain".to_string()),
        ]
    );
    assert_eq!(p.lines[0].spans[0].text, "（空预览）");
    assert!(!p.wrap);
    let f = card_preview(Vec::new(), None, PreviewModel::Failed { path: "a".to_string(), message: "boom".to_string() });
    assert_eq!(f.lines[0].spans[0].text, "预览失败: boom");
}

#[test]
fn plain_listing_lines() {
    assert_eq!(compact_suffix("  a \n b  "), "a b");
    assert_eq!(name_column_width(&vec!["short".to_string()]), 20);
    assert_eq!(list_line("\x1b[0m", "a", 20, None, None), "\x1b[0ma\x1b[0m");
    let line = list_line("", "ab", 20, Some("note"), Some("summary"));
    assert_eq!(line, format!("ab\x1b[0m{}\x1b[33m# note\x1b[0m", " ".repeat(22)));
}

#[test]
fn help_page_lists_commands() {
    let plain = help_page_lines(false, Some("/home/u/.lsz.db"));
    assert_eq!(plain[0], "lsz");
    assert!(plain.iter().any(|l| l == "  lsz -s <内容> <path>  添加备注"));
    assert_eq!(plain.last().unwrap(), "数据存储位置：/home/u/.lsz.db");
    let colored = help_page_lines(true, None);
    assert_eq!(colored[0], "\x1b[1;36mlsz\x1b[0m");
    assert_eq!(colored.len(), 36);
}

#[test]
fn browser_starts_next_to_a_file() {
    assert_eq!(start_location("/tmp/a.txt", true), ("/tmp".to_string(), Some("/tmp/a.txt".to_string())));
    assert_eq!(start_location("/tmp", false), ("/tmp".to_string(), None));
}

#[test]
fn line_numbers_only_for_code() {
    assert_eq!(line_number_gutter(PreviewKind::Code, true, 1), Some("   1 │ ".to_string()));
    assert_eq!(line_number_gutter(PreviewKind::Code, true, 12345), Some("12345 │ ".to_string()));
    assert_eq!(line_number_gutter(PreviewKind::Code, false, 1), None);
    assert_eq!(line_number_gutter(PreviewKind::Text, true, 1), None);
    assert_eq!(line_number_gutter(PreviewKind::Code, true, 7), Some(format!("{:>4} │ ", 7)));
}

#[test]
fn code_line_numbers_only_exist_in_render_layer() {
    let document = PreviewDocument {
        kind: PreviewKind::Code,
        title: "demo.rs".to_string(),
        subtitle: None,
        provider_name: "文本".to_string(),
        degraded: false,
        metadata: Vec::new(),
        warnings: Vec::new(),
        actions: Vec::new(),
        wrap_mode: PreviewWrapMode::NoWrap,
        lines: vec![PreviewLine::plain("let value = 1;")],
        first_line_number: 1,
    };
    let body: String = document.lines[0].spans.iter().map(|span| span.text.as_str()).collect();
    let with_line_numbers = line_number_gutter(document.kind, true, document.first_line_number).unwrap_or_default() + &body;
    let without_line_numbers = line_number_gutter(document.kind, false, document.first_line_number).unwrap_or_default() + &body;
    assert!(with_line_numbers.starts_with("   1 │ let value = 1;"));
    assert_eq!(without_line_numbers, "let value = 1;");
    assert!(!without_line_numbers.contains('│'));
    assert_eq!(document.lines[0].spans[0].text, "let value = 1;");
}

fn split(width: u16, height: u16) -> lsz::surfaces::tui::ui::PaneAreas {
    pane_areas(PaneRect { x: 0, y: 0, width, height })
}

#[test]
fn wide_layout_keeps_three_columns() {
    let areas = split(160, 40);
    assert_eq!(areas.mode, LayoutMode::Wide);
    assert!(areas.explorer.width > 0);
    assert!(areas.preview.width > 0);
    assert!(areas.inspector.width > 0);
}

#[test]
fn stacked_layout_moves_preview_and_inspector_vertically() {
    let areas = split(110, 40);
    assert_eq!(areas.mode, LayoutMode::Stacked);
    assert_eq!(areas.preview.x, areas.inspector.x);
    assert!(areas.preview.y < areas.inspector.y);
}

#[test]
fn rows_layout_keeps_all_panes_visible() {
    let areas = split(80, 32);
    assert_eq!(areas.mode, LayoutMode::Rows);
    assert!(areas.explorer.y < areas.preview.y);
    assert!(areas.preview.y < areas.inspector.y);
}

#[test]
fn status_line_is_the_last_row_and_small_terminals_share_one_pane() {
    let areas = split(160, 40);
    assert_eq!(areas.status, PaneRect { x: 0, y: 39, width: 160, height: 1 });
    let micro = split(40, 10);
    assert_eq!(micro.mode, LayoutMode::Micro);
    assert_eq!(micro.explorer, micro.preview);
    assert_eq!(micro.preview, micro.inspector);
    assert_eq!(micro.explorer, PaneRect { x: 0, y: 0, width: 40, height: 9 });
    let compact = split(60, 20);
    assert_eq!(compact.mode, LayoutMode::Compact);
    assert_eq!(compact.preview, compact.inspector);
}

#[test]
fn card_header_rows_fall_back_to_a_hint() {
    let rows = card_header_rows(None, None);
    assert_eq!(rows.len(), 1);
    assert!(matches!(&rows[0], CardHeaderRow::Hint(h) if h == "README / AGENTS / GUIDE 等说明文档优先预览"));
    let rows = card_header_rows(Some("sum".to_string()), Some("note".to_string()));
    assert!(matches!(&rows[0], CardHeaderRow::Summary(s) if s == "sum"));
    assert!(matches!(&rows[1], CardHeaderRow::Note(n) if n == "note"));
    let rows = card_header_rows(None, Some("n".to_string()));
    assert_eq!(rows.len(), 1);
    assert!(matches!(&rows[0], CardHeaderRow::Note(_)));
}

#[test]
fn card_sections_follow_the_line_counts() {
    let area = PaneRect { x: 0, y: 0, width: 60, height: 30 };
    let s = card_sections(area, 2, 4, 0);
    assert_eq!(s.len(), 4);
    assert_eq!(s[0].height, 3);
    assert_eq!(s[1].height, 5);
    assert_eq!(s[3].height, 1);
    assert_eq!(s[2].height, 30 - 3 - 5 - 1);
    let w = card_sections(area, 1, 0, 2);
    assert_eq!(w.len(), 5);
    assert_eq!(w[0].height, 3);
    assert_eq!(w[1].height, 3);
    assert_eq!(w[2].height, 3);
}
