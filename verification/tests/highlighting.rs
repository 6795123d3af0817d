use lsz::domain::preview::{PreviewColor, PreviewLine};
use lsz::infra::highlight::{
    find_syntax_from_hint, highlight_code, highlight_code_with_hint, highlighted_lines, lines_with_endings,
    resolve_syntax, StyledRange, SyntaxAssets,
};

fn texts(lines: &[PreviewLine]) -> Vec<String> {
    lines.iter().map(|l| l.spans.iter().map(|s| s.text.as_str()).collect::<String>()).collect()
}

#[test]
fn highlighted_lines_strip_line_endings() {
    let a = SyntaxAssets::load();
    let lines = highlight_code(&a, "demo.rs", "fn main() {}\r\nprintln!(\"hi\");\n", 20);
    assert!(lines.iter().all(|line| {
        line.spans.iter().all(|span| !span.text.contains('\n') && !span.text.contains('\r'))
    }));
    assert_eq!(texts(&lines), vec!["fn main() {}", "println!(\"hi\");"]);
}

#[test]
fn highlighted_code_uses_multiple_vivid_colors() {
    let a = SyntaxAssets::load();
    let lines = highlight_code(
        &a,
        "demo.rs",
        "fn main() {\n    let value = String::from(\"hi\");\n    println!(\"{value}\");\n}\n",
        20,
    );
    let vivid_colors = lines
        .iter()
        .flat_map(|line| line.spans.iter())
        .filter_map(|span| span.fg)
        .filter(|color| {
            let max = color.r.max(color.g).max(color.b);
            let min = color.r.min(color.g).min(color.b);
            max.saturating_sub(min) >= 12
        })
        .count();
    assert!(vivid_colors >= 3);
}

#[test]
fn resolve_syntax_supports_more_languages() {
    let a = SyntaxAssets::load();
    let plain = "Plain Text";
    let python = resolve_syntax(&a, "demo.py", None, "import os\nclass Demo:\n    pass\n");
    let php = resolve_syntax(&a, "demo.php", None, "<?php echo 1; ?>\n");
    let powershell = resolve_syntax(&a, "demo.ps1", None, "Write-Host 'hello'\nGet-ChildItem\n");
    let shell = resolve_syntax(&a, "script", None, "#!/usr/bin/env bash\necho hi\n");
    assert_ne!(python, plain);
    assert_ne!(php, plain);
    assert_ne!(powershell, plain);
    assert_ne!(shell, plain);
    assert_eq!(resolve_syntax(&a, "notes", None, "just words\n"), plain);
    assert_eq!(resolve_syntax(&a, "x.txt", Some("rust"), "fn main() {}\n"), "Rust");
    assert_eq!(find_syntax_from_hint(&a, "python"), Some("Python".to_string()));
}

#[test]
fn python_highlight_separates_keywords_strings_and_comments() {
    let a = SyntaxAssets::load();
    let lines = highlight_code(
        &a,
        "main.py",
        "import os\nclass Demo:\n    def run(self):\n        value = \"hello\"\n        # note\n        return value\n",
        20,
    );
    let mut string_color = None;
    let mut comment_color = None;
    let mut keyword_color = None;
    for line in &lines {
        for span in &line.spans {
            if span.text.contains("import") {
                keyword_color = span.fg;
            }
            if span.text.contains("hello") {
                string_color = span.fg;
            }
            if span.text.contains("# note") || span.text.contains("note") {
                comment_color = span.fg;
            }
        }
    }
    let keyword_color = keyword_color.expect("keyword color");
    let string_color = string_color.expect("string color");
    let comment_color = comment_color.expect("comment color");
    assert_ne!((keyword_color.r, keyword_color.g, keyword_color.b), (string_color.r, string_color.g, string_color.b));
    assert_ne!((string_color.r, string_color.g, string_color.b), (comment_color.r, comment_color.g, comment_color.b));
}

#[test]
fn python_single_line_comment_does_not_leak_to_following_lines() {
    let a = SyntaxAssets::load();
    let lines = highlight_code(&a, "database.py", "value = 1\n# 注释\nnext_value = 2\n", 20);
    let comment_color = lines[1]
        .spans
        .iter()
        .find(|span| span.text.contains("注释"))
        .and_then(|span| span.fg)
        .expect("comment color");
    let code_color = lines[2]
        .spans
        .iter()
        .find(|span| span.text.contains("next_value"))
        .and_then(|span| span.fg)
        .expect("code color");
    assert_ne!((comment_color.r, comment_color.g, comment_color.b), (code_color.r, code_color.g, code_color.b));
}

#[test]
fn lines_keep_their_endings_and_stop_at_the_limit() {
    assert_eq!(lines_with_endings("a\r\nb\nc", 10), vec!["a\r\n", "b\n", "c"]);
    assert_eq!(lines_with_endings("a\nb\n", 10), vec!["a\n", "b\n"]);
    assert_eq!(lines_with_endings("a\nb\nc\n", 2), vec!["a\n", "b\n"]);
    assert!(lines_with_endings("", 5).is_empty());
    assert!(lines_with_endings("a\n", 0).is_empty());
}

#[test]
fn ranges_become_trimmed_spans_and_failures_stay_plain() {
    let red = PreviewColor { r: 200, g: 10, b: 10 };
    let lines = vec!["let x\r\n".to_string(), "broken\n".to_string()];
    let ranges = vec![
        Some(vec![
            StyledRange { text: "let".to_string(), fg: red, bold: true },
            StyledRange { text: " x".to_string(), fg: red, bold: false },
            StyledRange { text: "\r\n".to_string(), fg: red, bold: false },
        ]),
        None,
    ];
    let out = highlighted_lines(&lines, &ranges);
    assert_eq!(out.len(), 2);
    assert_eq!(out[0].spans.len(), 2);
    assert_eq!(out[0].spans[0].text, "let");
    assert!(out[0].spans[0].bold);
    assert_eq!(out[0].spans[1].fg, Some(red));
    assert_eq!(out[1].spans.len(), 1);
    assert_eq!(out[1].spans[0].text, "broken");
    assert_eq!(out[1].spans[0].fg, None);
}

#[test]
fn line_limit_caps_highlighted_output() {
    let a = SyntaxAssets::load();
    let lines = highlight_code_with_hint(&a, "x", Some("rust"), "a\nb\nc\nd\n", 3);
    assert_eq!(texts(&lines), vec!["a", "b", "c"]);
}

#[test]
fn highlighted_spans_join_back_into_their_lines() {
    let a = SyntaxAssets::load();
    let content = "fn main() {}\r\nprintln!(\"hi\");\nlet  x =  1;  // tail\n";
    let lines = highlight_code(&a, "demo.rs", content, 20);
    assert_eq!(lines.len(), 3);
    let expected: Vec<String> = content.split_inclusive('\n').map(|l| l.trim_end_matches(['\r', '\n']).to_string()).collect();
    assert_eq!(texts(&lines), expected);
    let r = highlight_code(&a, "demo.rs", "fn main() {}\r\nprintln!(\"hi\");\n", 20);
    assert_eq!(r.len(), 2);
}
