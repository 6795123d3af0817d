use lsz::analyzer::security_info;
use lsz::archive::{build_preview, format_size, get_depth, listing_tool, preview_archive, read_7z_members, read_tar_members, read_zip_members, ArchivePreview, ListedMember, ListingTool};
use lsz::imagepreview::{backend_name, choose_backend, get_image_info, is_image_file, supports_kitty_graphics, ImageBackend};
use lsz::lscolors::LsColors;
use lsz::pdfpreview::{extract_pdf_text, get_pdf_info, is_media_file, is_pdf_file, pdf_text_fallback};

fn group_names(p: &ArchivePreview) -> Vec<(String, Vec<(String, String, bool)>)> {
    p.grouped
        .iter()
        .map(|g| (g.dir.clone(), g.entries.iter().map(|e| (e.name.clone(), e.size.clone(), e.is_dir)).collect()))
        .collect()
}

#[test]
fn depth_counts_inner_slashes() {
    assert_eq!(get_depth("file"), 0);
    assert_eq!(get_depth("a/b/c"), 2);
    assert_eq!(get_depth("/a/b/"), 1);
    assert_eq!(get_depth("a/b/c/d/e.txt"), 4);
}

#[test]
fn sizes_without_space() {
    assert_eq!(format_size(0), "0B");
    assert_eq!(format_size(512), "512B");
    assert_eq!(format_size(1536), "1.5KB");
    assert_eq!(format_size(3 * 1024 * 1024), "3.0MB");
    assert_eq!(format_size(5 * 1024 * 1024 * 1024), "5.0GB");
    for size in [1024u64, 1100, 2168, 10_000, 999_999, 1_048_575, 123_456_789, 9_999_999_999] {
        let expected = if size < 1024 * 1024 {
            format!("{:.1}KB", size as f64 / 1024.0)
        } else if size < 1024 * 1024 * 1024 {
            format!("{:.1}MB", size as f64 / 1024.0 / 1024.0)
        } else {
            format!("{:.1}GB", size as f64 / 1024.0 / 1024.0 / 1024.0)
        };
        assert_eq!(format_size(size), expected);
    }
}

#[test]
fn tools_by_extension() {
    assert_eq!(listing_tool("a/b.ZIP"), ListingTool::Zip);
    assert_eq!(listing_tool("x.tar"), ListingTool::Tar);
    assert_eq!(listing_tool("x.gz"), ListingTool::Tar);
    assert_eq!(listing_tool("x.tgz"), ListingTool::Tar);
    assert_eq!(listing_tool("x.7z"), ListingTool::SevenZip);
    assert_eq!(listing_tool("x.rar"), ListingTool::Unlisted);
    assert_eq!(listing_tool("noext"), ListingTool::Unlisted);
}

const ZIP_LISTING: &str = "Archive:  test.zip\n\
Zip file size: 1234 bytes, number of entries: 3\n\
Permissions Version OS Size Type Compressed Method Date Time Name\n\
-rw-r--r--  3.0 unx      120 tx      100 defN 24-Jan-01 12:00 dir/a.txt\n\
drwxr-xr-x  3.0 unx        0 bx        0 stor 24-Jan-01 12:00 dir/\n\
-rw-r--r--  3.0 unx     2048 bx     1000 defN 24-Jan-01 12:00 top file.bin\n\
3 files, 2168 bytes uncompressed, 1100 bytes compressed:  49.3%\n";

#[test]
fn zip_members_from_the_ninth_column() {
    let ms = read_zip_members(ZIP_LISTING);
    let got: Vec<(String, u64, bool)> = ms.iter().map(|m| (m.path.clone(), m.size, m.is_dir)).collect();
    assert_eq!(
        got,
        vec![
            ("12:00 dir/a.txt".to_string(), 120, false),
            ("12:00 dir/".to_string(), 0, true),
            ("12:00 top file.bin".to_string(), 2048, false),
        ]
    );
}

#[test]
fn zip_preview_groups_by_directory() {
    let p = preview_archive("pack.zip", Some(ZIP_LISTING)).unwrap();
    assert_eq!(p.format, "ZIP Archive");
    assert_eq!(p.total_files, 3);
    assert_eq!(p.total_size, "2.1KB");
    assert_eq!(p.hidden_count, 0);
    assert!(p.is_supported);
    assert!(!p.truncated);
    assert_eq!(
        group_names(&p),
        vec![
            (
                "/".to_string(),
                vec![("12:00 dir".to_string(), "0B".to_string(), true), ("12:00 top file.bin".to_string(), "2.0KB".to_string(), false)]
            ),
            ("12:00 dir/".to_string(), vec![("a.txt".to_string(), "120B".to_string(), false)]),
        ]
    );
}

#[test]
fn tar_preview_counts_all_lines() {
    let (ms, total) = read_tar_members("a/\na/b.txt\nc.txt\n");
    assert_eq!(ms.len(), 3);
    assert_eq!(total, 3);
    let p = preview_archive("x.tar", Some("a/\na/b.txt\nc.txt\n")).unwrap();
    assert_eq!(p.format, "TAR Archive");
    assert_eq!(p.total_size, "0B");
    assert_eq!(
        group_names(&p),
        vec![
            ("/".to_string(), vec![("a".to_string(), "0B".to_string(), true), ("c.txt".to_string(), "0B".to_string(), false)]),
            ("a/".to_string(), vec![("b.txt".to_string(), "0B".to_string(), false)]),
        ]
    );
}

#[test]
fn tar_listing_beyond_the_limit_is_truncated() {
    let listing: String = (0..2001).map(|i| format!("f{i}.txt\n")).collect();
    let p = preview_archive("big.tgz", Some(&listing)).unwrap();
    assert_eq!(p.total_files, 2001);
    assert_eq!(p.hidden_count, 1);
    assert!(p.truncated);
    assert_eq!(p.grouped.len(), 1);
    assert_eq!(p.grouped[0].entries.len(), 2000);
}

#[test]
fn sevenz_members_need_a_size() {
    let out = "   Date      Time    Attr         Size   Compressed  Name\n\
------------------- ----- ------------ ------------  ------------------------\n\
2024-01-01 12:00:00 ....A          100           50  docs/read me.md\n\
------------------- ----- ------------ ------------  ------------------------\n";
    let ms = read_7z_members(out);
    assert_eq!(ms.len(), 1);
    assert_eq!(ms[0].path, "docs/read me.md");
    assert_eq!(ms[0].size, 100);
    let p = preview_archive("d.7z", Some(out)).unwrap();
    assert_eq!(p.format, "7Z Archive");
    assert_eq!(group_names(&p), vec![("docs/".to_string(), vec![("read me.md".to_string(), "100B".to_string(), false)])]);
}

#[test]
fn deep_members_are_counted_but_not_grouped() {
    let ms = vec![
        ListedMember { path: "a/b/c/d/e.txt".to_string(), size: 10, is_dir: false },
        ListedMember { path: "a/b/c/d.txt".to_string(), size: 5, is_dir: false },
    ];
    let p = build_preview(&ms, "Custom".to_string(), 2);
    assert_eq!(p.total_size, "15B");
    assert_eq!(p.total_files, 2);
    assert_eq!(group_names(&p), vec![("a/b/c/".to_string(), vec![("d.txt".to_string(), "5B".to_string(), false)])]);
}

#[test]
fn groups_come_in_name_order_once_each() {
    let ms: Vec<ListedMember> = ["z/1", "b/2", "z/3", "a/4", "b/5"]
        .iter()
        .map(|p| ListedMember { path: p.to_string(), size: 1, is_dir: false })
        .collect();
    let p = build_preview(&ms, "T".to_string(), 5);
    let dirs: Vec<String> = p.grouped.iter().map(|g| g.dir.clone()).collect();
    assert_eq!(dirs, vec!["a/", "b/", "z/"]);
    assert_eq!(p.grouped[2].entries.iter().map(|e| e.name.clone()).collect::<Vec<_>>(), vec!["1", "3"]);
}

#[test]
fn unlisted_and_failed_archives_are_unsupported() {
    let p = preview_archive("x.rar", None).unwrap();
    assert_eq!(p.format, "RAR Archive");
    assert!(!p.is_supported);
    assert_eq!(p.total_size, "-");
    assert_eq!(p.total_files, 0);
    assert!(p.grouped.is_empty());
    let q = preview_archive("x.tgz", None).unwrap();
    assert_eq!(q.format, "TAR Archive");
    assert!(!q.is_supported);
    let r = preview_archive("plain", Some("ignored")).unwrap();
    assert_eq!(r.format, " Archive");
}

#[test]
fn sizes_beyond_u64_give_no_summary() {
    let out = "2024-01-01 12:00:00 ....A 18446744073709551615 1 a\n2024-01-01 12:00:00 ....A 1 1 b\n";
    assert!(preview_archive("x.7z", Some(out)).is_none());
}

#[test]
fn image_files_by_extension() {
    assert!(is_image_file("a/B.PNG"));
    assert!(is_image_file("x.tif"));
    assert!(!is_image_file("x.txt"));
    assert!(!is_image_file("noext"));
}

#[test]
fn image_backends() {
    assert_eq!(backend_name(&ImageBackend::Kitty), "Kitty / Inline protocol");
    assert_eq!(backend_name(&ImageBackend::Ueberzug), "Überzug++");
    assert_eq!(backend_name(&ImageBackend::Chafa), "Chafa");
    assert_eq!(backend_name(&ImageBackend::External), "System viewer");
    assert_eq!(choose_backend(true, true, true), ImageBackend::Kitty);
    assert_eq!(choose_backend(false, true, true), ImageBackend::Ueberzug);
    assert_eq!(choose_backend(false, false, true), ImageBackend::Chafa);
    assert_eq!(choose_backend(false, false, false), ImageBackend::External);
    assert!(supports_kitty_graphics(Some("xterm-kitty"), None));
    assert!(supports_kitty_graphics(None, Some("WezTerm")));
    assert!(supports_kitty_graphics(Some("xterm"), Some("iTerm.app")));
    assert!(!supports_kitty_graphics(Some("xterm-256color"), Some("Apple_Terminal")));
    assert!(!supports_kitty_graphics(None, None));
}

#[test]
fn image_info_from_header() {
    let mut png = b"\x89PNG\r\n\x1a\n".to_vec();
    png.extend_from_slice(&[0, 0, 0, 13, b'I', b'H', b'D', b'R', 0, 0, 1, 0, 0, 0, 0, 200]);
    let info = get_image_info("pics/a.png", &png, ImageBackend::Chafa);
    assert_eq!((info.width, info.height), (256, 200));
    assert_eq!(info.format, "PNG");
    assert_eq!(info.color_type, "Preview via terminal adapter / external app");
    assert!(info.exif_data.is_empty());
    assert_eq!(info.backend, ImageBackend::Chafa);
    let none = get_image_info("raw", &vec![1, 2, 3], ImageBackend::External);
    assert_eq!((none.width, none.height), (0, 0));
    assert_eq!(none.format, "UNKNOWN");
}

#[test]
fn pdf_info_from_text() {
    let content = "%PDF-1.4 /Title (My Doc) /Author ( Ann ) /Type /Page /Type /Pages /Count 3";
    let info = get_pdf_info(content, 99);
    assert_eq!(info.title, "My Doc");
    assert_eq!(info.author, "Ann");
    assert_eq!(info.page_count, 2);
    assert_eq!(info.file_size, 99);
    let bare = get_pdf_info("/Count 1 /Count 2 /Count 3", 0);
    assert_eq!(bare.title, "");
    assert_eq!(bare.page_count, 3);
}

#[test]
fn pdf_text_prefers_the_extractor() {
    assert_eq!(extract_pdf_text(Some("from tool"), Some("raw")), Some("from tool".to_string()));
    assert_eq!(extract_pdf_text(None, Some("Hello\u{0}\u{1} world\n\nfoo")), Some("Hello world foo".to_string()));
    assert_eq!(extract_pdf_text(None, Some("\u{0}\u{1}")), None);
    assert_eq!(extract_pdf_text(None, None), None);
    assert_eq!(pdf_text_fallback("caf\u{e9} ok"), Some("caf ok".to_string()));
    let long: String = "ab ".repeat(5000);
    let t = pdf_text_fallback(&long).unwrap();
    assert_eq!(t.chars().count(), 8000);
    assert!(t.starts_with("ab ab"));
}

#[test]
fn pdf_and_media_files() {
    assert!(is_pdf_file("A.PDF"));
    assert!(!is_pdf_file("a.pdfx"));
    assert!(!is_pdf_file("pdf"));
    assert!(is_media_file("x.MKV"));
    assert!(is_media_file("doc.pdf"));
    assert!(!is_media_file("x.png"));
}

#[test]
fn colors_with_the_full_pattern_language() {
    let c = LsColors::parse("*.rs=01;31:*)md=35:*~=33:Make*=32:.*.bak=36:^README$=1;33:LICENSE=4:fi=0;37");
    assert_eq!(c.for_path("main.RS", false, false, false), "\x1b[01;31m");
    assert_eq!(c.for_path("notes.md", false, false, false), "\x1b[35m");
    assert_eq!(c.for_path("md", false, false, false), "\x1b[35m");
    assert_eq!(c.for_path("file~", false, false, false), "\x1b[33m");
    assert_eq!(c.for_path("Makefile", false, false, false), "\x1b[32m");
    assert_eq!(c.for_path("x.bak", false, false, false), "\x1b[36m");
    assert_eq!(c.for_path("readme", false, false, false), "\x1b[1;33m");
    assert_eq!(c.for_path("license", false, false, false), "\x1b[4m");
    assert_eq!(c.for_path("other.txt", false, false, false), "\x1b[0;37m");
    assert_eq!(c.for_path("src", true, false, false), "\x1b[01;34m");
    assert_eq!(c.for_path("ln", false, true, false), "\x1b[01;36m");
    assert_eq!(c.for_path("run", false, false, true), "\x1b[01;32m");
    assert!(!c.matches_pattern("noext", "*.rs"));
    assert!(c.matches_pattern("^x$", "^^x$$"));
}

#[test]
fn security_report_flags_disguised_executables() {
    let elf = b"\x7fELF\x02\x01\x01".to_vec();
    let r = security_info("photos/evil.JPG", &elf, true, Some("abc".to_string()));
    assert_eq!(r.mime_type, "application/x-elf");
    assert_eq!(r.file_signature, "ELF Executable");
    assert_eq!(r.extension, "jpg");
    assert!(r.is_suspicious);
    assert_eq!(r.md5_hash, Some("abc".to_string()));
    let big = security_info("tool.exe", &elf, false, Some("abc".to_string()));
    assert!(!big.is_suspicious);
    assert_eq!(big.md5_hash, None);
    let png = security_info("a.png", &b"\x89PNG\r\n\x1a\n".to_vec(), true, None);
    assert_eq!(png.mime_type, "image/png");
    assert!(!png.is_suspicious);
}
