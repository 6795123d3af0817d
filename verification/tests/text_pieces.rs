use lsz::lexing::{lines_of, parse_u64, split_by, words_of};
use lsz::infra::providers::text::{excerpt_of, text_max_lines, text_preview_result, text_read_plan, whole_file_budget, TextReadPlan, TextSource};
use lsz::infra::providers::PreviewSurface;
use lsz::domain::entry::EntryKind;
use lsz::domain::preview::PreviewKind;

#[test]
fn lines_words_and_numbers_like_std() {
    for s in ["", "a", "a\n", "a\r\nb", "\n\n", "a\rb\r", "x\n\ny"] {
        let expected: Vec<String> = s.lines().map(|l| l.to_string()).collect();
        assert_eq!(lines_of(s), expected, "{s:?}");
    }
    for s in ["", "  a  b\tc\n", "一 二\u{3000}三"] {
        let expected: Vec<String> = s.split_whitespace().map(|w| w.to_string()).collect();
        assert_eq!(words_of(s), expected, "{s:?}");
    }
    for s in ["", "+", "+7", "007", "18446744073709551615", "18446744073709551616", "-1", "1a"] {
        assert_eq!(parse_u64(s), s.parse::<u64>().ok(), "{s:?}");
    }
    assert_eq!(split_by("a::b", ':'), vec!["a".to_string(), "".to_string(), "b".to_string()]);
}

#[test]
fn text_plans_by_size() {
    assert_eq!(text_max_lines(20, PreviewSurface::Tui), 220);
    assert_eq!(text_max_lines(500, PreviewSurface::Inspect), 500);
    assert_eq!(text_read_plan(EntryKind::Code, Some(100), 20, PreviewSurface::Tui), TextReadPlan::HighlightWhole);
    assert_eq!(
        text_read_plan(EntryKind::Code, Some(300_000), 20, PreviewSurface::Tui),
        TextReadPlan::HighlightExcerpt { max_lines: 220 }
    );
    assert_eq!(
        text_read_plan(EntryKind::Code, Some(3_000_000), 20, PreviewSurface::Tui),
        TextReadPlan::PlainLines { max_lines: 220 }
    );
    assert_eq!(whole_file_budget(""), 1);
    assert_eq!(whole_file_budget("a\nb\n"), 2);
    assert_eq!(excerpt_of(&vec!["a".to_string(), "".to_string()]), Some("a\n\n".to_string()));
    assert_eq!(excerpt_of(&Vec::new()), None);
}

#[test]
fn large_code_file_disables_highlight() {
    let r = text_preview_result("/tmp/big.rs", EntryKind::Code, Some(3_000_000), 220, TextSource::Plain(vec!["let value = 1;".to_string()]));
    assert!(r.degraded);
    assert!(r.warnings.iter().any(|w| w.contains("大文件")));
    assert!(r.metadata.iter().any(|(k, v)| k == "高亮" && v == "关闭"));
    assert_eq!(r.kind, PreviewKind::Code);
}

#[test]
fn mid_sized_highlight_notes_the_window() {
    let r = text_preview_result("/tmp/mid.rs", EntryKind::Code, Some(300_000), 220, TextSource::Highlighted(Vec::new()));
    assert_eq!(r.warnings, vec!["中等文件：当前只高亮前 220 行，继续滚动时建议按 n 关闭行号后复制".to_string()]);
    let r = text_preview_result("/tmp/mid.txt", EntryKind::Text, Some(300_000), 140, TextSource::Plain(Vec::new()));
    assert_eq!(r.warnings, vec!["中等文件：仅加载前 140 行窗口内容".to_string()]);
    assert_eq!(r.lines[0].spans[0].text, "二进制或不可读内容");
    let small = text_preview_result("/tmp/s.rs", EntryKind::Code, Some(10), 220, TextSource::Highlighted(Vec::new()));
    assert!(!small.degraded);
    assert!(small.warnings.is_empty());
}
