use lsz::infra::providers::markdown::{
    inline_spans, markdown_preview_result, parse_fence, render_markdown, render_markdown_line, MarkdownBlock,
};
use lsz::domain::preview::{PreviewColor, PreviewKind, PreviewWrapMode};

fn line_text(block: &MarkdownBlock) -> String {
    match block {
        MarkdownBlock::Line(l) => l.spans.iter().map(|s| s.text.as_str()).collect(),
        MarkdownBlock::Code { content, .. } => content.clone(),
    }
}

#[test]
fn headings_lists_quotes_and_code_blocks() {
    let blocks = render_markdown("# 标题\n\n- 列表项\n\n> 引用段落\n\n```rust\nfn main() {}\n```\n", 80);
    match &blocks[0] {
        MarkdownBlock::Line(l) => {
            assert_eq!(l.spans[0].text, "标题");
            assert!(l.spans[0].bold);
            assert_eq!(l.spans[0].fg, Some(PreviewColor { r: 0, g: 180, b: 255 }));
        }
        _ => panic!("heading expected"),
    }
    assert!(blocks.iter().any(|b| matches!(b, MarkdownBlock::Line(l) if l.spans[0].text == "• ")));
    assert!(blocks.iter().any(|b| matches!(b, MarkdownBlock::Line(l) if l.spans[0].text == "▎ ")));
    let code = blocks.iter().find_map(|b| match b {
        MarkdownBlock::Code { hint, content, max_lines } => Some((hint.clone(), content.clone(), *max_lines)),
        _ => None,
    });
    assert_eq!(code, Some(("rust".to_string(), "fn main() {}\n".to_string(), 74)));
    assert!(!blocks.iter().any(|b| line_text(b).contains("```") || line_text(b).contains("# ")));
    assert_eq!(blocks.len(), 7);
}

#[test]
fn empty_markdown_gets_placeholder() {
    let blocks = render_markdown("", 60);
    assert_eq!(blocks.len(), 1);
    assert_eq!(line_text(&blocks[0]), "（空 Markdown）");
}

#[test]
fn line_budget_limits_rendering() {
    let blocks = render_markdown("a\nb\nc\nd\n", 2);
    assert_eq!(blocks.len(), 2);
    let blocks = render_markdown("```\nx\ny\nz\n```\nafter\n", 2);
    match &blocks[0] {
        MarkdownBlock::Code { hint, content, max_lines } => {
            assert_eq!(hint, "");
            assert_eq!(content, "x\ny\nz\n");
            assert_eq!(*max_lines, 2);
        }
        _ => panic!("code expected"),
    }
    assert_eq!(blocks.len(), 1);
}

#[test]
fn inline_code_is_styled_between_backticks() {
    let spans = inline_spans("use `cargo` now", None, false, false);
    let texts: Vec<&str> = spans.iter().map(|s| s.text.as_str()).collect();
    assert_eq!(texts, vec!["use ", "cargo", " now"]);
    assert!(spans[1].bold);
    assert_eq!(spans[1].fg, Some(PreviewColor { r: 255, g: 214, b: 102 }));
    let empty = inline_spans("``", None, true, false);
    assert_eq!(empty.len(), 1);
    assert_eq!(empty[0].text, "");
}

#[test]
fn rules_and_ordered_items() {
    let rule = render_markdown_line("-----");
    assert_eq!(rule.spans[0].text, "─────");
    assert!(rule.spans[0].dim);
    let item = render_markdown_line("12.   twelve");
    assert_eq!(item.spans[0].text, "12. ");
    assert_eq!(item.spans[1].text, "twelve");
    let plain = render_markdown_line("  text  ");
    assert_eq!(plain.spans[0].text, "  text  ");
}

#[test]
fn fences_name_their_language() {
    assert_eq!(parse_fence("``` python "), Some(Some("python".to_string())));
    assert_eq!(parse_fence("```"), Some(None));
    assert_eq!(parse_fence("``````rust"), Some(Some("rust".to_string())));
    assert_eq!(parse_fence("not a fence"), None);
}

#[test]
fn markdown_result_wraps() {
    let r = markdown_preview_result("/tmp/README.md", Some(10), Vec::new());
    assert_eq!(r.kind, PreviewKind::Markdown);
    assert_eq!(r.wrap_mode, PreviewWrapMode::Wrap);
    assert_eq!(r.title, "README.md");
    assert_eq!(r.metadata, vec![("大小".to_string(), "10 B".to_string())]);
}
