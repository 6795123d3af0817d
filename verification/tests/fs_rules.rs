use lsz::domain::entry::{EntryItem, EntryKind};
use lsz::infra::fs::{
    entry_is_listed,    pick_project_doc,
    cargo_description, doc_summary, has_script_shebang, is_text_sample, kind_by_content, kind_by_path,
    project_doc_candidates, size_label, sort_listing, truncate_chars,
};

#[test]
fn kinds_by_name_and_extension() {
    assert_eq!(kind_by_path(false, true, "/x/demo.md"), Some(EntryKind::Markdown));
    assert_eq!(kind_by_path(false, true, "/x/demo.rs"), Some(EntryKind::Code));
    assert_eq!(kind_by_path(false, true, "/x/Dockerfile"), Some(EntryKind::Code));
    assert_eq!(kind_by_path(false, true, "/x/.env"), Some(EntryKind::Code));
    assert_eq!(kind_by_path(false, true, "/x/demo.php"), Some(EntryKind::Code));
    assert_eq!(kind_by_path(false, true, "/x/demo.rb"), Some(EntryKind::Code));
    assert_eq!(kind_by_path(false, true, "/x/demo.ps1"), Some(EntryKind::Code));
    assert_eq!(kind_by_path(false, true, "/x/README.TXT"), Some(EntryKind::Text));
    assert_eq!(kind_by_path(false, true, "/x/a.tgz"), Some(EntryKind::Archive));
    assert_eq!(kind_by_path(false, true, "/x/a.PDF"), Some(EntryKind::Pdf));
    assert_eq!(kind_by_path(false, true, "/x/a.webp"), Some(EntryKind::Image));
    assert_eq!(kind_by_path(true, false, "/x/a.rs"), Some(EntryKind::Directory));
    assert_eq!(kind_by_path(false, false, "/x/a.rs"), Some(EntryKind::Unknown));
    assert_eq!(kind_by_path(false, true, "/x/script"), None);
}

#[test]
fn kinds_by_content() {
    assert_eq!(kind_by_content("#!/usr/bin/env bash\n", Some(&b"echo hi".to_vec())), EntryKind::Code);
    assert_eq!(kind_by_content("hello\n", Some(&b"hello\n".to_vec())), EntryKind::Text);
    assert_eq!(kind_by_content("", Some(&vec![0u8, 1, 2])), EntryKind::Binary);
    assert_eq!(kind_by_content("", None), EntryKind::Binary);
    assert!(has_script_shebang("  #!/usr/bin/python3  "));
    assert!(!has_script_shebang("#!/usr/bin/perl"));
    let mut long = vec![b'a'; 2048];
    long.push(0);
    assert!(is_text_sample(&long));
}

#[test]
fn labels_and_truncation() {
    assert_eq!(size_label(None), "0 B");
    assert_eq!(size_label(Some(2048)), "2.0 KB");
    assert_eq!(truncate_chars("abcdef", 6), "abcdef");
    assert_eq!(truncate_chars("abcdefg", 6), "abc...");
    assert_eq!(truncate_chars("abcdefg", 2), "...");
}

#[test]
fn summaries_from_documents_and_manifests() {
    assert_eq!(doc_summary("  ## My Project  \n"), Some("My Project".to_string()));
    assert_eq!(doc_summary("###\n"), None);
    let lines = vec!["[package]".to_string(), "description = \"A tool\"".to_string()];
    assert_eq!(cargo_description(&lines), Some("A tool".to_string()));
    let none = vec!["name = \"x\"".to_string()];
    assert_eq!(cargo_description(&none), None);
    assert_eq!(project_doc_candidates()[0], "README.md");
    assert_eq!(project_doc_candidates()[3], "AGENTS.md");
}

fn item(name: &str, kind: EntryKind) -> EntryItem {
    EntryItem {
        path: format!("/x/{name}"),
        name: name.to_string(),
        kind,
        is_hidden: false,
        is_symlink: false,
        size: None,
        mtime: None,
        note: None,
        auto_summary: None,
    }
}

#[test]
fn listing_puts_directories_first() {
    let sorted = sort_listing(vec![
        item("b.txt", EntryKind::Text),
        item("Zed", EntryKind::Directory),
        item("a.txt", EntryKind::Text),
    ]);
    let names: Vec<String> = sorted.into_iter().map(|e| e.name).collect();
    assert_eq!(names, vec!["Zed", "a.txt", "b.txt"]);
}

#[test]
fn find_project_doc_prefers_readme_then_agents() {
    let candidates = project_doc_candidates();
    let only = |names: &[&str]| -> Vec<bool> { candidates.iter().map(|c| names.contains(c)).collect() };
    let chosen = |names: &[&str]| pick_project_doc(&only(names)).map(|i| candidates[i]);
    assert_eq!(chosen(&["AGENTS.md"]), Some("AGENTS.md"));
    assert_eq!(chosen(&["AGENTS.md", "README.md"]), Some("README.md"));
    assert_eq!(chosen(&["AGENTS.md", "GUIDE.md"]), Some("AGENTS.md"));
    assert_eq!(chosen(&["docs/README.md"]), Some("docs/README.md"));
    assert_eq!(chosen(&[]), None);
}

#[test]
fn hidden_entries_are_listed_only_on_request() {
    assert!(entry_is_listed("src", false));
    assert!(!entry_is_listed(".git", false));
    assert!(entry_is_listed(".git", true));
    assert!(entry_is_listed("", false));
}
