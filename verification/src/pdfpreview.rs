//! Facts about PDF documents read from their raw bytes, and a plain-text fallback.
use vstd::prelude::*;
use crate::text::{ascii_lower, ascii_lower_char, chars_of, join, join_strings, push_char, slice_chars, str_eq, string_from, to_ascii_lowercase, views};
use crate::lexing::{text_words, words_of};
use crate::paths::{lower_ext, lower_extension, path_extension, path_extension_spec};
use crate::infra::fs::{image_extensions, in_list};
use crate::imagepreview::is_image_path;
use crate::infra::providers::pdf::{count_from, count_matches, find_pdf_value, max_nat, pdf_value_spec};

verus! {

/// What is read of a PDF without a renderer.
#[derive(Debug, Clone)]
pub struct PdfInfo {
    pub title: String,
    pub author: String,
    pub page_count: usize,
    pub file_size: u64,
}

/// The value of an info entry, or empty.
pub open spec fn info_value(content: Seq<char>, key: Seq<char>) -> Seq<char> {
    match pdf_value_spec(content, key) {
        Some(v) => v,
        None => Seq::empty(),
    }
}

/// The pages of a PDF as counted from its text: page objects or the page tree's count
/// entries, whichever occur more often.
pub open spec fn page_count_spec(content: Seq<char>) -> nat {
    max_nat(count_from(content, "/Type /Page"@, 0), count_from(content, "/Count "@, 0))
}

/// Title, author and page count of a PDF whose bytes, read as UTF-8 with invalid sequences
/// replaced, are `content`, and whose size is `file_size`.
pub fn get_pdf_info(content: &str, file_size: u64) -> (r: PdfInfo)
    ensures
        r.title@ == info_value(content@, "/Title"@),
        r.author@ == info_value(content@, "/Author"@),
        r.page_count == page_count_spec(content@),
        r.file_size == file_size,
{
    let chars = chars_of(content);
    let title = match find_pdf_value(&chars, "/Title") {
        Some(t) => t,
        None => String::new(),
    };
    let author = match find_pdf_value(&chars, "/Author") {
        Some(a) => a,
        None => String::new(),
    };
    let pages = chars_of("/Type /Page");
    let counts = chars_of("/Count ");
    let a = count_matches(&chars, &pages);
    let b = count_matches(&chars, &counts);
    PdfInfo { title, author, page_count: if a >= b { a } else { b }, file_size }
}

/// Characters kept by the text fallback: printable ASCII and ASCII white space.
pub open spec fn keep_char(c: char) -> bool {
    ('!' <= c && c <= '~') || c == ' ' || c == '\t' || c == '\n' || c == '\x0C' || c == '\r'
}

pub open spec fn printable(s: Seq<char>) -> Seq<char>
    decreases s.len(),
{
    if s.len() == 0 {
        Seq::empty()
    } else if keep_char(s.last()) {
        printable(s.drop_last()).push(s.last())
    } else {
        printable(s.drop_last())
    }
}

/// Longest text the fallback returns, in characters.
pub const FALLBACK_LIMIT: usize = 8000;

/// The fallback text of raw content: its printable ASCII words joined by single spaces, at
/// most `FALLBACK_LIMIT` characters; `None` where there are no words.
pub open spec fn fallback_text(raw: Seq<char>) -> Option<Seq<char>> {
    let compact = join(text_words(printable(raw)), seq![' ']);
    if compact.len() == 0 {
        None
    } else {
        Some(compact.take(if compact.len() < FALLBACK_LIMIT { compact.len() as int } else { FALLBACK_LIMIT as int }))
    }
}

fn printable_string(raw: &str) -> (r: String)
    ensures
        r@ == printable(raw@),
{
    let v = chars_of(raw);
    let mut s = String::new();
    let mut i: usize = 0;
    while i < v.len()
        invariant
            i <= v.len(),
            v@ == raw@,
            s@ == printable(v@.take(i as int)),
        decreases v.len() - i,
    {
        let c = v[i];
        assert(v@.take(i + 1).drop_last() =~= v@.take(i as int));
        assert(v@.take(i + 1).last() == c);
        let keep = ('!' <= c && c <= '~') || c == ' ' || c == '\t' || c == '\n' || c == '\x0C' || c == '\r';
        if keep {
            push_char(&mut s, c);
        }
        i = i + 1;
    }
    assert(v@.take(v.len() as int) =~= v@);
    s
}

/// The text fallback for raw PDF content.
pub fn pdf_text_fallback(raw: &str) -> (r: Option<String>)
    ensures
        crate::domain::preview::opt_view(r) == fallback_text(raw@),
{
    let text = printable_string(raw);
    let words = words_of(text.as_str());
    let compact = join_strings(&words, " ");
    proof {
        reveal_strlit(" ");
        assert(" "@ =~= seq![' ']);
    }
    let cv = chars_of(compact.as_str());
    if cv.len() == 0 {
        return None;
    }
    let n = if cv.len() < FALLBACK_LIMIT { cv.len() } else { FALLBACK_LIMIT };
    let kept = slice_chars(&cv, 0, n);
    assert(kept@ =~= compact@.take(n as int));
    Some(string_from(&kept))
}

/// The text of a PDF: what the extractor printed where it succeeded, else the fallback on
/// the raw content where it could be read.
pub open spec fn pdf_text_spec(extracted: Option<Seq<char>>, raw: Option<Seq<char>>) -> Option<Seq<char>> {
    match extracted {
        Some(t) => Some(t),
        None => match raw {
            Some(r) => fallback_text(r),
            None => None,
        },
    }
}

pub fn extract_pdf_text(extracted: Option<&str>, raw: Option<&str>) -> (r: Option<String>)
    ensures
        crate::domain::preview::opt_view(r) == pdf_text_spec(
            match extracted { Some(t) => Some(t@), None => None },
            match raw { Some(t) => Some(t@), None => None },
        ),
{
    match extracted {
        Some(t) => Some(string_from(&chars_of(t))),
        None => match raw {
            Some(r) => pdf_text_fallback(r),
            None => None,
        },
    }
}

/// Whether a path names a PDF by its extension (ASCII case ignored).
pub open spec fn is_pdf_path(path: Seq<char>) -> bool {
    match path_extension_spec(path) {
        Some(e) => ascii_lower(e) == "pdf"@,
        None => false,
    }
}

pub fn is_pdf_file(path: &str) -> (r: bool)
    ensures
        r == is_pdf_path(path@),
{
    proof {
        reveal_strlit("pdf");
    }
    match path_extension(path) {
        Some(e) => {
            let l = to_ascii_lowercase(e.as_str());
            str_eq(l.as_str(), "pdf")
        },
        None => false,
    }
}

proof fn lemma_images_are_not_media(x: Seq<char>)
    ensures
        image_extensions().contains(x) ==> !media_extensions().contains(x),
{
    reveal_strlit("png"); reveal_strlit("jpg"); reveal_strlit("jpeg"); reveal_strlit("gif");
    reveal_strlit("bmp"); reveal_strlit("webp"); reveal_strlit("svg"); reveal_strlit("ico");
    reveal_strlit("tif"); reveal_strlit("tiff");
    reveal_strlit("mp4"); reveal_strlit("mkv"); reveal_strlit("avi"); reveal_strlit("mov");
    reveal_strlit("wmv"); reveal_strlit("flv"); reveal_strlit("webm"); reveal_strlit("mp3");
    reveal_strlit("wav"); reveal_strlit("flac"); reveal_strlit("aac"); reveal_strlit("ogg");
    reveal_strlit("m4a"); reveal_strlit("pdf"); reveal_strlit("doc"); reveal_strlit("docx");
    reveal_strlit("xls"); reveal_strlit("xlsx"); reveal_strlit("ppt"); reveal_strlit("pptx");
    if image_extensions().contains(x) && media_extensions().contains(x) {
        let i = choose|i: int| 0 <= i < image_extensions().len() && image_extensions()[i] == x;
        let j = choose|j: int| 0 <= j < media_extensions().len() && media_extensions()[j] == x;
        assert(image_extensions()[i] == media_extensions()[j]);
        assert(image_extensions()[i][0] == media_extensions()[j][0]);
        assert(image_extensions()[i].len() == media_extensions()[j].len());
        assert(image_extensions()[i].last() == media_extensions()[j].last());
    }
}

/// Extensions of audio, video and office files, which are opened outside.
pub open spec fn media_extensions() -> Seq<Seq<char>> {
    seq![
        "mp4"@, "mkv"@, "avi"@, "mov"@, "wmv"@, "flv"@, "webm"@, "mp3"@, "wav"@, "flac"@,
        "aac"@, "ogg"@, "m4a"@, "pdf"@, "doc"@, "docx"@, "xls"@, "xlsx"@, "ppt"@, "pptx"@,
    ]
}

/// Whether a path names a media or office file by its extension (case ignored). A PDF is
/// one; an image is not.
pub fn is_media_file(path: &str) -> (r: bool)
    ensures
        r == media_extensions().contains(lower_ext(path@)),
        is_pdf_path(path@) ==> r,
        is_image_path(path@) ==> !r,
{
    let ext = lower_extension(path);
    proof {
        reveal_strlit("pdf");
        if is_pdf_path(path@) {
            let e = path_extension_spec(path@)->0;
            assert(ascii_lower(e) == "pdf"@);
            assert forall|i: int| 0 <= i < e.len() implies (#[trigger] e[i] as u32) < 128 by {
                assert(ascii_lower(e)[i] == ascii_lower_char(e[i]));
                assert(("pdf"@)[i] == 'p' || ("pdf"@)[i] == 'd' || ("pdf"@)[i] == 'f');
            }
            assert(ext@ == "pdf"@);
            assert(media_extensions()[13] == "pdf"@);
        }
        lemma_images_are_not_media(lower_ext(path@));
    }
    let list = vec![
        "mp4", "mkv", "avi", "mov", "wmv", "flv", "webm", "mp3", "wav", "flac",
        "aac", "ogg", "m4a", "pdf", "doc", "docx", "xls", "xlsx", "ppt", "pptx",
    ];
    assert(views(list@) =~= media_extensions());
    in_list(ext.as_str(), &list)
}

} // verus!
