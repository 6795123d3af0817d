use lsz::infra::providers::image::{image_dimensions, image_preview_result, parse_bmp, parse_gif, parse_jpeg, parse_png};
use lsz::infra::providers::pdf::{count_matches, find_pdf_value, pdf_page_limit, pdf_preview_result};

fn png(w: u32, h: u32) -> Vec<u8> {
    let mut b = b"\x89PNG\r\n\x1a\n".to_vec();
    b.extend_from_slice(&[0, 0, 0, 13, b'I', b'H', b'D', b'R']);
    b.extend_from_slice(&w.to_be_bytes());
    b.extend_from_slice(&h.to_be_bytes());
    b
}

#[test]
fn image_headers_give_dimensions() {
    assert_eq!(parse_png(&png(640, 480)), Some((640, 480)));
    let mut gif = b"GIF89a".to_vec();
    gif.extend_from_slice(&[0x20, 0x01, 0x10, 0x00]);
    assert_eq!(parse_gif(&gif), Some((288, 16)));
    let mut bmp = vec![0u8; 26];
    bmp[0] = b'B';
    bmp[1] = b'M';
    bmp[18..22].copy_from_slice(&300u32.to_le_bytes());
    bmp[22..26].copy_from_slice(&200u32.to_le_bytes());
    assert_eq!(parse_bmp(&bmp), Some((300, 200)));
    let jpeg = vec![0xFF, 0xD8, 0xFF, 0xE0, 0x00, 0x04, 0x00, 0x00, 0xFF, 0xC0, 0x00, 0x11, 0x08, 0x01, 0xE0, 0x02, 0x80, 0x03, 0x01];
    assert_eq!(parse_jpeg(&jpeg), Some((640, 480)));
    assert_eq!(image_dimensions(&b"nothing".to_vec()), (0, 0));
}

#[test]
fn image_preview_reports_format_and_size() {
    let r = image_preview_result("/tmp/a.png", &png(2, 3));
    assert_eq!(r.metadata[0], ("格式".to_string(), "PNG".to_string()));
    assert_eq!(r.metadata[1], ("尺寸".to_string(), "2x3".to_string()));
    assert_eq!(r.lines[1].spans[0].text, "尺寸: 2x3");
    let r = image_preview_result("/tmp/noext", &Vec::new());
    assert_eq!(r.metadata[0].1, "-");
}

#[test]
fn pdf_information_from_raw_text() {
    let raw = "%PDF-1.4 /Type /Pages /Count 3 /Type /Page /Type /Page /Title ( Report ) /Author (Ann)";
    let chars: Vec<char> = raw.chars().collect();
    assert_eq!(count_matches(&chars, &"/Type /Page".chars().collect()), 3);
    assert_eq!(find_pdf_value(&chars, "/Title"), Some("Report".to_string()));
    assert_eq!(find_pdf_value(&chars, "/Subject"), None);
    assert_eq!(pdf_page_limit(2), 5);
    let r = pdf_preview_result("/tmp/r.pdf", raw, Some("line one\nline two\n"), 10);
    assert!(!r.degraded);
    assert_eq!(r.lines.len(), 2);
    assert_eq!(r.metadata[0], ("页数".to_string(), "3".to_string()));
    assert_eq!(r.metadata[1], ("标题".to_string(), "Report".to_string()));
    let r = pdf_preview_result("/tmp/r.pdf", "", None, 10);
    assert!(r.degraded);
    assert_eq!(r.lines[0].spans[0].text, "PDF 文本预览不可用");
}
