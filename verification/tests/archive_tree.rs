use lsz::infra::providers::archive::{
    archive_format, build_archive_preview, build_tree_lines, format_size, parse_7z_listing,
    parse_tar_listing, parse_zip_listing, preview_listing, ArchiveEntry, ArchiveFormat,
};

fn texts(lines: Vec<lsz::domain::preview::PreviewLine>) -> Vec<String> {
    lines
        .into_iter()
        .map(|line| line.spans.into_iter().map(|span| span.text).collect::<String>())
        .collect()
}

#[test]
fn tree_preview_uses_branch_connectors() {
    let entries = vec![
        ArchiveEntry { path: "src/main.rs".to_string(), size: Some(1200), is_dir: false },
        ArchiveEntry { path: "src/lib.rs".to_string(), size: Some(800), is_dir: false },
        ArchiveEntry { path: "README.md".to_string(), size: Some(64), is_dir: false },
    ];

    let (lines, depth_truncated, breadth_collapsed) = build_tree_lines(&entries, 40);
    let text = texts(lines);

    assert!(!depth_truncated);
    assert!(!breadth_collapsed);
    assert!(text.iter().any(|line| line.contains("├─ src/") || line.contains("└─ src/")));
    assert!(text.iter().any(|line| {
        line.contains("├─ lib.rs") || line.contains("└─ lib.rs") || line.contains("   lib.rs")
    }));
    assert!(text.iter().any(|line| line.contains("README.md")));
}

#[test]
fn tree_preview_collapses_noisy_directory_levels() {
    let mut entries = Vec::new();
    for index in 0..60 {
        entries.push(ArchiveEntry {
            path: format!("node_modules/pkg-{index}/index.js"),
            size: Some(64),
            is_dir: false,
        });
    }

    let (lines, _depth_truncated, breadth_collapsed) = build_tree_lines(&entries, 200);
    let text = texts(lines);

    assert!(breadth_collapsed);
    assert!(text.iter().any(|line| line.contains("… 50 more")));
}

#[test]
fn tree_lines_are_exact_for_a_small_listing() {
    let entries = vec![
        ArchiveEntry { path: "src/main.rs".to_string(), size: Some(1200), is_dir: false },
        ArchiveEntry { path: "src/lib.rs".to_string(), size: Some(800), is_dir: false },
        ArchiveEntry { path: "README.md".to_string(), size: Some(64), is_dir: false },
    ];
    let (lines, _, _) = build_tree_lines(&entries, 40);
    assert_eq!(
        texts(lines),
        vec![
            "./".to_string(),
            "├─ README.md  64B".to_string(),
            "└─ src/".to_string(),
            "   ├─ lib.rs  800B".to_string(),
            "   └─ main.rs  1.2KB".to_string(),
        ]
    );
}

#[test]
fn empty_listing_shows_placeholder() {
    let (lines, d, b) = build_tree_lines(&Vec::new(), 40);
    assert_eq!(texts(lines), vec!["./".to_string(), "（空压缩包）".to_string()]);
    assert!(!d && !b);
}

#[test]
fn deep_paths_stop_at_three_levels() {
    let entries = vec![ArchiveEntry { path: "a/b/c/d/e.txt".to_string(), size: None, is_dir: false }];
    let (lines, depth_truncated, _) = build_tree_lines(&entries, 40);
    assert!(depth_truncated);
    assert_eq!(
        texts(lines),
        vec!["./".to_string(), "└─ a/".to_string(), "   └─ b/".to_string(), "      └─ c/".to_string()]
    );
}

#[test]
fn line_budget_is_respected() {
    let mut entries = Vec::new();
    for index in 0..30 {
        entries.push(ArchiveEntry { path: format!("f{index:02}.txt"), size: None, is_dir: false });
    }
    let (lines, _, _) = build_tree_lines(&entries, 10);
    assert_eq!(lines.len(), 10);
    let (lines, _, _) = build_tree_lines(&entries, 0);
    assert_eq!(lines.len(), 2);
}

#[test]
fn format_size_matches_one_decimal_float_formatting() {
    assert_eq!(format_size(0), "0B");
    assert_eq!(format_size(1023), "1023B");
    assert_eq!(format_size(1024), "1.0KB");
    assert_eq!(format_size(1280), "1.2KB");
    assert_eq!(format_size(1536), "1.5KB");
    assert_eq!(format_size(1024 * 1024), "1.0MB");
    assert_eq!(format_size(3 * 1024 * 1024 * 1024), "3.0GB");
    let samples: Vec<u64> = vec![
        1, 999, 1024, 1075, 1126, 1127, 1280, 1331, 2047, 2048, 10_000, 123_456, 1_048_575, 1_048_576,
        1_572_864, 5_000_000, 1_073_741_823, 1_073_741_824, 5_368_709_120, 1_099_511_627_776,
    ];
    for size in samples {
        let expected = if size < 1024 {
            format!("{size}B")
        } else if size < 1024 * 1024 {
            format!("{:.1}KB", size as f64 / 1024.0)
        } else if size < 1024 * 1024 * 1024 {
            format!("{:.1}MB", size as f64 / 1024.0 / 1024.0)
        } else {
            format!("{:.1}GB", size as f64 / 1024.0 / 1024.0 / 1024.0)
        };
        assert_eq!(format_size(size), expected, "size {size}");
    }
    for size in 1024u64..20_000 {
        assert_eq!(format_size(size), format!("{:.1}KB", size as f64 / 1024.0), "size {size}");
    }
}

#[test]
fn zip_listing_is_parsed() {
    let out = "Archive:  demo.zip\nZip file size: 1 bytes, number of entries: 2\nheader line\n-rw-r--r--  3.0 unx      120 tx       80 defN 24-Jan-01 10:00 src/main.rs\ndrwxr-xr-x  3.0 unx        0 bx        0 stor 24-Jan-01 10:00 src/\n2 files, 120 bytes uncompressed, 80 bytes compressed:  33.3%\n";
    let entries = parse_zip_listing(out);
    assert_eq!(entries.len(), 2);
    assert_eq!(entries[0].path, "src/main.rs");
    assert_eq!(entries[0].size, Some(120));
    assert!(!entries[0].is_dir);
    assert_eq!(entries[1].path, "src/");
    assert!(entries[1].is_dir);
}

#[test]
fn tar_and_7z_listings_are_parsed() {
    let tar = parse_tar_listing("dir/\ndir/a.txt\n");
    assert_eq!(tar.len(), 2);
    assert!(tar[0].is_dir);
    assert_eq!(tar[1].size, None);
    let sz = "7-Zip header\n------------------- ----- ------------ ------------  ------------------------\n2024-01-01 10:00:00 ....A          512          300  docs/read me.txt\n";
    let entries = parse_7z_listing(sz);
    assert_eq!(entries.len(), 1);
    assert_eq!(entries[0].path, "docs/read me.txt");
    assert_eq!(entries[0].size, Some(512));
}

#[test]
fn archive_format_follows_extension() {
    assert_eq!(archive_format("/x/a.ZIP"), Some(ArchiveFormat::Zip));
    assert_eq!(archive_format("/x/a.tar.gz"), Some(ArchiveFormat::Tar));
    assert_eq!(archive_format("/x/a.7z"), Some(ArchiveFormat::SevenZ));
    assert_eq!(archive_format("/x/a.rar"), None);
}

#[test]
fn preview_warns_about_collapsed_levels() {
    let mut entries = Vec::new();
    for index in 0..60 {
        entries.push(ArchiveEntry { path: format!("d/f{index}"), size: Some(1), is_dir: false });
    }
    let data = build_archive_preview("ZIP".to_string(), entries, 200, true);
    assert_eq!(data.total_entries, 60);
    assert_eq!(data.total_size, Some(60));
    assert_eq!(data.warnings, vec!["单层目录超过 50 条时，仅展示前 10 条".to_string()]);
    let none = preview_listing(ArchiveFormat::Tar, "a\nb\n", 60).expect("tar preview");
    assert_eq!(none.total_size, None);
}

#[test]
fn repeated_and_unordered_paths_give_one_sorted_node_each() {
    let entries = vec![
        ArchiveEntry { path: "b/x".to_string(), size: Some(1), is_dir: false },
        ArchiveEntry { path: "a/y".to_string(), size: Some(2), is_dir: false },
        ArchiveEntry { path: "b/z".to_string(), size: Some(3), is_dir: false },
        ArchiveEntry { path: "b/x".to_string(), size: Some(4), is_dir: false },
    ];
    let (lines, _, _) = build_tree_lines(&entries, 40);
    assert_eq!(
        texts(lines),
        vec![
            "./".to_string(),
            "├─ a/".to_string(),
            "│  └─ y  2B".to_string(),
            "└─ b/".to_string(),
            "   ├─ x  4B".to_string(),
            "   └─ z  3B".to_string(),
        ]
    );
}
