use lsz::infra::analyzer::{analyze, md5_from_tool_output, mime_from_tool_output, should_hash, sniff_signature, Md5State, HASH_LIMIT};
use lsz::infra::providers::{append_unique_metadata, enrich_preview_result, unsupported_preview};
use lsz::domain::entry::EntryKind;

#[test]
fn signatures_from_leading_bytes() {
    assert_eq!(sniff_signature(&b"\x7fELF...".to_vec()), ("application/x-elf", "ELF Executable"));
    assert_eq!(sniff_signature(&b"%PDF-1.7".to_vec()), ("application/pdf", "PDF Document"));
    assert_eq!(sniff_signature(&b"RIFF\0\0\0\0WEBPVP8".to_vec()), ("image/webp", "WebP Image"));
    assert_eq!(sniff_signature(&b"hello".to_vec()), ("application/octet-stream", "Binary Data"));
}

#[test]
fn markdown_analysis_restores_common_metadata() {
    let a = analyze("/tmp/readme.md", &b"# demo\n".to_vec(), None, true, Some("abc".to_string()));
    assert_eq!(a.mime_type, "text/markdown");
    assert_eq!(a.extension, "md");
    assert_eq!(a.file_signature, "Markdown Document");
    assert_eq!(a.md5_state, Md5State::Ready);
}

#[test]
fn large_file_skips_md5() {
    assert!(!should_hash(true, HASH_LIMIT + 1));
    assert!(should_hash(true, HASH_LIMIT));
    let a = analyze("/tmp/large.bin", &vec![b'x'; 16], None, false, None);
    assert_eq!(a.md5_state, Md5State::LargeFile);
    assert!(a.md5_hash.is_none());
}

#[test]
fn disguised_executable_is_suspicious() {
    let a = analyze("/tmp/photo.JPG", &b"MZ\x90\x00".to_vec(), None, true, None);
    assert!(a.is_suspicious);
    assert_eq!(a.extension, "jpg");
    assert_eq!(a.md5_state, Md5State::Unavailable);
    let base = unsupported_preview("/tmp/photo.JPG", "none");
    let enriched = enrich_preview_result(EntryKind::Image, base, Some(a.clone()));
    assert!(enriched.metadata.iter().any(|(k, v)| k == "MIME" && v == "application/x-msdownload"));
    assert!(enriched.metadata.iter().any(|(k, v)| k == "Ext" && v == ".jpg"));
    assert!(enriched.metadata.iter().any(|(k, v)| k == "MD5" && v == "<unavailable>"));
    assert_eq!(enriched.warnings.len(), 2);
    let twice = enrich_preview_result(EntryKind::Image, enriched, Some(a));
    assert_eq!(twice.warnings.len(), 2);
    assert_eq!(twice.metadata.len(), 4);
}

#[test]
fn tool_outputs_are_read() {
    assert_eq!(mime_from_tool_output(" text/plain\n"), Some("text/plain".to_string()));
    assert_eq!(mime_from_tool_output("  \n"), None);
    assert_eq!(md5_from_tool_output("d41d8cd98f00b204e9800998ecf8427e  file\n"), Some("d41d8cd98f00b204e9800998ecf8427e".to_string()));
    let mut md = vec![("mime".to_string(), "x".to_string())];
    append_unique_metadata(&mut md, "MIME", "y".to_string());
    assert_eq!(md.len(), 1);
    append_unique_metadata(&mut md, "Real", "z".to_string());
    assert_eq!(md.len(), 2);
}
