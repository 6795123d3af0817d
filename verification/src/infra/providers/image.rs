//! Image previews: dimensions read from the file header.
use vstd::prelude::*;
use crate::domain::preview::{PreviewDocView, PreviewKind, PreviewLine, PreviewResult, PreviewWrapMode};
use crate::infra::providers::{plain_line_of, title_for};
use crate::infra::providers::archive::title_spec;
use crate::paths::{path_extension, path_extension_spec};
use crate::text::{append_str, decimal, push_char, push_decimal, str_uppercase, to_uppercase, views};

verus! {

pub open spec fn be16(hi: u8, lo: u8) -> u32 {
    (hi as u32 * 256 + lo as u32) as u32
}

pub open spec fn be32(b0: u8, b1: u8, b2: u8, b3: u8) -> u32 {
    (b0 as u32 * 16777216 + b1 as u32 * 65536 + b2 as u32 * 256 + b3 as u32) as u32
}

pub open spec fn le32(b0: u8, b1: u8, b2: u8, b3: u8) -> u32 {
    be32(b3, b2, b1, b0)
}

fn be16_of(hi: u8, lo: u8) -> (r: u32)
    ensures
        r == be16(hi, lo),
{
    (hi as u32) * 256 + (lo as u32)
}

fn be32_of(b0: u8, b1: u8, b2: u8, b3: u8) -> (r: u32)
    ensures
        r == be32(b0, b1, b2, b3),
{
    (b0 as u32) * 16777216 + (b1 as u32) * 65536 + (b2 as u32) * 256 + (b3 as u32)
}

/// PNG: the signature, then width and height big-endian at bytes 16 and 20.
pub open spec fn png_spec(b: Seq<u8>) -> Option<(u32, u32)> {
    if b.len() >= 24 && b.take(8) == seq![0x89u8, 0x50, 0x4e, 0x47, 0x0d, 0x0a, 0x1a, 0x0a] {
        Some((be32(b[16], b[17], b[18], b[19]), be32(b[20], b[21], b[22], b[23])))
    } else {
        None
    }
}

/// GIF: `GIF87a` or `GIF89a`, then width and height little-endian at bytes 6 and 8.
pub open spec fn gif_spec(b: Seq<u8>) -> Option<(u32, u32)> {
    if b.len() >= 10 && (b.take(6) == seq![0x47u8, 0x49, 0x46, 0x38, 0x37, 0x61] || b.take(6) == seq![0x47u8, 0x49, 0x46, 0x38, 0x39, 0x61]) {
        Some((be16(b[7], b[6]), be16(b[9], b[8])))
    } else {
        None
    }
}

/// BMP: `BM`, then width and height little-endian at bytes 18 and 22.
pub open spec fn bmp_spec(b: Seq<u8>) -> Option<(u32, u32)> {
    if b.len() >= 26 && b[0] == 0x42 && b[1] == 0x4d {
        Some((le32(b[18], b[19], b[20], b[21]), le32(b[22], b[23], b[24], b[25])))
    } else {
        None
    }
}

fn has_prefix(b: &Vec<u8>, p: &Vec<u8>) -> (r: bool)
    requires
        p.len() <= b.len(),
    ensures
        r == (b@.take(p.len() as int) == p@),
{
    let mut i: usize = 0;
    while i < p.len()
        invariant
            i <= p.len() <= b.len(),
            forall|j: int| 0 <= j < i ==> b@[j] == p@[j],
        decreases p.len() - i,
    {
        if b[i] != p[i] {
            assert(b@.take(p.len() as int)[i as int] != p@[i as int]);
            return false;
        }
        i = i + 1;
    }
    assert(b@.take(p.len() as int) =~= p@);
    true
}

pub fn parse_png(b: &Vec<u8>) -> (r: Option<(u32, u32)>)
    ensures
        r == png_spec(b@),
{
    if b.len() >= 24 && has_prefix(b, &vec![0x89u8, 0x50, 0x4e, 0x47, 0x0d, 0x0a, 0x1a, 0x0a]) {
        Some((be32_of(b[16], b[17], b[18], b[19]), be32_of(b[20], b[21], b[22], b[23])))
    } else {
        None
    }
}

pub fn parse_gif(b: &Vec<u8>) -> (r: Option<(u32, u32)>)
    ensures
        r == gif_spec(b@),
{
    if b.len() >= 10 && (has_prefix(b, &vec![0x47u8, 0x49, 0x46, 0x38, 0x37, 0x61]) || has_prefix(b, &vec![0x47u8, 0x49, 0x46, 0x38, 0x39, 0x61])) {
        Some((be16_of(b[7], b[6]), be16_of(b[9], b[8])))
    } else {
        None
    }
}

pub fn parse_bmp(b: &Vec<u8>) -> (r: Option<(u32, u32)>)
    ensures
        r == bmp_spec(b@),
{
    if b.len() >= 26 && b[0] == 0x42 && b[1] == 0x4d {
        Some((be32_of(b[21], b[20], b[19], b[18]), be32_of(b[25], b[24], b[23], b[22])))
    } else {
        None
    }
}

/// The JPEG start-of-frame markers, which carry the dimensions.
pub open spec fn is_sof(m: u8) -> bool {
    m == 0xc0 || m == 0xc1 || m == 0xc2 || m == 0xc3 || m == 0xc5 || m == 0xc6 || m == 0xc7
        || m == 0xc9 || m == 0xca || m == 0xcb || m == 0xcd || m == 0xce || m == 0xcf
}

/// Walks JPEG segments from `i`: skips to the next `0xFF`, reads a start-of-frame's height
/// and width, and jumps over other segments by their length.
pub open spec fn jpeg_scan(b: Seq<u8>, i: int) -> Option<(u32, u32)>
    decreases if i < b.len() { b.len() - i } else { 0 },
{
    if i < 0 || i + 9 >= b.len() {
        None
    } else if b[i] != 0xff {
        jpeg_scan(b, i + 1)
    } else if is_sof(b[i + 1]) {
        Some((be16(b[i + 7], b[i + 8]), be16(b[i + 5], b[i + 6])))
    } else if i + 4 >= b.len() {
        None
    } else if be16(b[i + 2], b[i + 3]) < 2 {
        None
    } else {
        jpeg_scan(b, i + 2 + be16(b[i + 2], b[i + 3]))
    }
}

/// JPEG: `FF D8`, then the segments.
pub open spec fn jpeg_spec(b: Seq<u8>) -> Option<(u32, u32)> {
    if b.len() >= 2 && b[0] == 0xff && b[1] == 0xd8 {
        jpeg_scan(b, 2)
    } else {
        None
    }
}

fn sof(m: u8) -> (r: bool)
    ensures
        r == is_sof(m),
{
    m == 0xc0 || m == 0xc1 || m == 0xc2 || m == 0xc3 || m == 0xc5 || m == 0xc6 || m == 0xc7
        || m == 0xc9 || m == 0xca || m == 0xcb || m == 0xcd || m == 0xce || m == 0xcf
}

pub fn parse_jpeg(b: &Vec<u8>) -> (r: Option<(u32, u32)>)
    ensures
        r == jpeg_spec(b@),
{
    if !(b.len() >= 2 && b[0] == 0xff && b[1] == 0xd8) {
        return None;
    }
    let mut i: usize = 2;
    while i < b.len() && b.len() - i > 9
        invariant
            2 <= i,
            jpeg_spec(b@) == jpeg_scan(b@, i as int),
        decreases b.len() - i,
    {
        if b[i] != 0xff {
            i = i + 1;
        } else if sof(b[i + 1]) {
            return Some((be16_of(b[i + 7], b[i + 8]), be16_of(b[i + 5], b[i + 6])));
        } else {
            let len = be16_of(b[i + 2], b[i + 3]);
            if len < 2 {
                return None;
            }
            let step = 2 + len as usize;
            if step >= b.len() - i {
                assert(jpeg_scan(b@, i + step) == None::<(u32, u32)>);
                return None;
            }
            i = i + step;
        }
    }
    None
}

/// The dimensions of an image from its first bytes: the first of PNG, GIF, BMP and JPEG
/// that matches, else zero by zero.
pub open spec fn dimensions_spec(b: Seq<u8>) -> (u32, u32) {
    if png_spec(b) is Some {
        png_spec(b)->0
    } else if gif_spec(b) is Some {
        gif_spec(b)->0
    } else if bmp_spec(b) is Some {
        bmp_spec(b)->0
    } else if jpeg_spec(b) is Some {
        jpeg_spec(b)->0
    } else {
        (0, 0)
    }
}

pub fn image_dimensions(b: &Vec<u8>) -> (r: (u32, u32))
    ensures
        r == dimensions_spec(b@),
{
    match parse_png(b) {
        Some(d) => return d,
        None => {},
    }
    match parse_gif(b) {
        Some(d) => return d,
        None => {},
    }
    match parse_bmp(b) {
        Some(d) => return d,
        None => {},
    }
    match parse_jpeg(b) {
        Some(d) => d,
        None => (0, 0),
    }
}

pub open spec fn dims_text(w: u32, h: u32) -> Seq<char> {
    decimal(w as nat) + seq!['x'] + decimal(h as nat)
}

/// The preview of an image from its first bytes: format from the extension, dimensions.
pub open spec fn image_result_spec(path: Seq<char>, head: Seq<u8>) -> PreviewDocView {
    let (w, h) = dimensions_spec(head);
    PreviewDocView {
        kind: PreviewKind::Image,
        title: title_spec(path),
        subtitle: Some(path),
        provider_name: "图片"@,
        degraded: false,
        metadata: seq![
            ("格式"@, str_uppercase(match path_extension_spec(path) { Some(e) => e, None => "-"@ })),
            ("尺寸"@, dims_text(w, h)),
        ],
        warnings: Seq::empty(),
        actions: seq!["o：外部打开"@],
        wrap_mode: PreviewWrapMode::Wrap,
        lines: seq![plain_line_of("图片元信息预览"@), plain_line_of("尺寸: "@ + dims_text(w, h))],
        first_line_number: 1,
    }
}

pub fn image_preview_result(path: &str, head: &Vec<u8>) -> (r: PreviewResult)
    ensures
        r@ == image_result_spec(path@, head@),
{
    let (w, h) = image_dimensions(head);
    let mut dims = String::new();
    push_decimal(&mut dims, w as u64);
    push_char(&mut dims, 'x');
    push_decimal(&mut dims, h as u64);
    assert(dims@ =~= dims_text(w, h));
    let ext = match path_extension(path) {
        Some(e) => e,
        None => String::from_str("-"),
    };
    let format = to_uppercase(ext.as_str());
    let mut metadata: Vec<(String, String)> = Vec::new();
    metadata.push((String::from_str("格式"), format));
    metadata.push((String::from_str("尺寸"), dims.clone()));
    let mut size_line = String::from_str("尺寸: ");
    append_str(&mut size_line, dims.as_str());
    let mut lines: Vec<PreviewLine> = Vec::new();
    lines.push(PreviewLine::plain("图片元信息预览"));
    lines.push(PreviewLine::plain(size_line.as_str()));
    let mut actions: Vec<String> = Vec::new();
    actions.push(String::from_str("o：外部打开"));
    let warnings: Vec<String> = Vec::new();
    proof {
        assert(views(metadata@) =~= image_result_spec(path@, head@).metadata);
        assert(views(lines@) =~= image_result_spec(path@, head@).lines);
        assert(views(actions@) =~= seq!["o：外部打开"@]);
        assert(views(warnings@) =~= Seq::<Seq<char>>::empty());
    }
    PreviewResult {
        kind: PreviewKind::Image,
        title: title_for(path),
        subtitle: Some(String::from_str(path)),
        provider_name: String::from_str("图片"),
        degraded: false,
        metadata,
        warnings,
        actions,
        wrap_mode: PreviewWrapMode::Wrap,
        lines,
        first_line_number: 1,
    }
}

} // verus!
