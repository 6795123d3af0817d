use lsz::domain::preview::{PreviewDocument, PreviewKind, PreviewLine, PreviewModel, PreviewWrapMode};

fn code_document() -> PreviewDocument {
    PreviewDocument {
        kind: PreviewKind::Code,
        title: "demo.rs".to_string(),
        subtitle: None,
        provider_name: "文本".to_string(),
        degraded: false,
        metadata: Vec::new(),
        warnings: Vec::new(),
        actions: Vec::new(),
        wrap_mode: PreviewWrapMode::NoWrap,
        lines: vec![PreviewLine::plain("let value = 1;")],
        first_line_number: 1,
    }
}

#[test]
fn source_preview_lines_keep_plain_text_without_ui_prefixes() {
    let document = code_document();
    match PreviewModel::Document(document.clone()) {
        PreviewModel::Document(doc) => {
            assert_eq!(doc.lines[0].spans[0].text, "let value = 1;");
        }
        _ => unreachable!("document expected"),
    }
}

#[test]
fn plain_line_drops_trailing_line_breaks() {
    let line = PreviewLine::plain("abc\r\n");
    assert_eq!(line.spans.len(), 1);
    assert_eq!(line.spans[0].text, "abc");
    assert_eq!(PreviewKind::Archive.label(), "压缩包");
    assert!(PreviewWrapMode::Wrap.should_wrap());
    assert!(!PreviewWrapMode::NoWrap.should_wrap());
}
