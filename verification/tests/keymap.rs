use lsz::surfaces::tui::app::help::{help_row_texts, searches_all_categories};
use lsz::domain::keymap::HelpContext;
use lsz::config::keymap::{default_key_bindings, render_help_keys_lines};

#[test]
fn help_document_uses_same_binding_source() {
    let lines = render_help_keys_lines();
    assert_eq!(lines.len(), default_key_bindings().len() + 2);
    assert!(lines.iter().any(|line| line.contains("基础导航")));
    assert!(lines.iter().any(|line| line.contains("备注与书签")));
}

#[test]
fn binding_table_is_complete() {
    let r = default_key_bindings();
    assert_eq!(r.len(), 66);
    let primary: Vec<Vec<String>> = r
        .iter()
        .filter(|b| b.context == HelpContext::Explorer && b.primary)
        .map(|b| b.keys.clone())
        .collect();
    let expected: Vec<Vec<String>> = [vec!["j", "Down"], vec!["Enter"], vec!["Backspace", "h"], vec!["/"], vec!["m"], vec!["?", "F1"], vec!["q"]]
        .iter()
        .map(|v| v.iter().map(|s| s.to_string()).collect())
        .collect();
    assert_eq!(primary, expected);
    assert_eq!(r[1].keys, vec!["k".to_string(), "Up".to_string()]);
    assert!(!r[1].primary);
    let add = r.iter().find(|b| b.keys == vec![":bookmark add [name]".to_string()]).unwrap();
    assert_eq!(add.label, "添加书签");
    assert_eq!(add.detail, "保存当前目录书签");
    assert!(!add.primary);
    assert!(render_help_keys_lines().iter().any(|line| line.contains(":bookmark add [name]")));
}

#[test]
fn help_rows_are_padded_like_the_listing() {
    let r = default_key_bindings();
    let b = &r[1];
    let texts = help_row_texts(b, false);
    assert_eq!(texts.category, None);
    assert_eq!(texts.keys, format!("{:18}", b.keys.join(", ")));
    assert_eq!(texts.label, format!("{:10}", b.label));
    assert_eq!(texts.detail, b.detail);
    let across = help_row_texts(b, true);
    assert_eq!(across.category, Some("[基础导航] ".to_string()));
    assert!(searches_all_categories(" src "));
    assert!(!searches_all_categories(" \t "));
}
