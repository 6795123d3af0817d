//! What a file really is: its signature from the first bytes, its MIME type, and whether
//! its name hides an executable.
use vstd::prelude::*;
use crate::paths::{path_extension, path_extension_spec, path_file_name, path_file_name_spec};
use crate::text::{ascii_lower, str_eq, str_starts_with, starts_with, to_ascii_lowercase, trim, trim_ws, views};
use crate::lexing::{text_words, words_of};

verus! {

/// Files larger than this are not hashed.
pub const HASH_LIMIT: u64 = 5242880;

/// Whether an MD5 digest is at hand, skipped for size, or could not be computed.
#[derive(Debug, Clone, Copy, PartialEq, Eq, Structural)]
pub enum Md5State {
    Ready,
    LargeFile,
    Unavailable,
}

/// What was found out about a file.
#[derive(Debug, Clone)]
pub struct FileAnalysis {
    pub mime_type: String,
    pub extension: String,
    pub is_suspicious: bool,
    pub md5_hash: Option<String>,
    pub md5_state: Md5State,
    pub file_signature: String,
}

pub open spec fn bytes_start(buf: Seq<u8>, p: Seq<u8>) -> bool {
    p.len() <= buf.len() && buf.take(p.len() as int) == p
}

fn has_bytes(buf: &Vec<u8>, p: &Vec<u8>) -> (r: bool)
    ensures
        r == bytes_start(buf@, p@),
{
    if p.len() > buf.len() {
        return false;
    }
    let mut i: usize = 0;
    while i < p.len()
        invariant
            i <= p.len() <= buf.len(),
            buf@.take(i as int) == p@.take(i as int),
        decreases p.len() - i,
    {
        if buf[i] != p[i] {
            assert(buf@.take(p.len() as int)[i as int] != p@[i as int]);
            return false;
        }
        assert(buf@.take(i + 1) =~= buf@.take(i as int).push(buf@[i as int]));
        assert(p@.take(i + 1) =~= p@.take(i as int).push(p@[i as int]));
        i = i + 1;
    }
    assert(p@ =~= p@.take(p.len() as int));
    true
}

/// The MIME type and description that the leading bytes of a file show.
pub open spec fn sniff_spec(buf: Seq<u8>) -> (Seq<char>, Seq<char>) {
    if bytes_start(buf, seq![0x7fu8, 0x45, 0x4c, 0x46]) {
        ("application/x-elf"@, "ELF Executable"@)
    } else if bytes_start(buf, seq![0x4du8, 0x5a]) {
        ("application/x-msdownload"@, "Windows PE"@)
    } else if bytes_start(buf, seq![0xfeu8, 0xed, 0xfa]) || bytes_start(buf, seq![0xcfu8, 0xfa, 0xed, 0xfe]) {
        ("application/x-mach-binary"@, "Mach-O Binary"@)
    } else if bytes_start(buf, seq![0x50u8, 0x4b, 0x03, 0x04]) {
        ("application/zip"@, "ZIP Archive"@)
    } else if bytes_start(buf, seq![0x1fu8, 0x8b]) {
        ("application/gzip"@, "GZIP Compressed"@)
    } else if bytes_start(buf, seq![0x25u8, 0x50, 0x44, 0x46, 0x2d]) {
        ("application/pdf"@, "PDF Document"@)
    } else if bytes_start(buf, seq![0x89u8, 0x50, 0x4e, 0x47, 0x0d, 0x0a, 0x1a, 0x0a]) {
        ("image/png"@, "PNG Image"@)
    } else if bytes_start(buf, seq![0xffu8, 0xd8, 0xff]) {
        ("image/jpeg"@, "JPEG Image"@)
    } else if bytes_start(buf, seq![0x47u8, 0x49, 0x46, 0x38, 0x37, 0x61]) || bytes_start(buf, seq![0x47u8, 0x49, 0x46, 0x38, 0x39, 0x61]) {
        ("image/gif"@, "GIF Image"@)
    } else if bytes_start(buf, seq![0x52u8, 0x49, 0x46, 0x46]) && buf.len() >= 12 && buf.subrange(8, 12) == seq![0x57u8, 0x45, 0x42, 0x50] {
        ("image/webp"@, "WebP Image"@)
    } else {
        ("application/octet-stream"@, "Binary Data"@)
    }
}

/// Reads the signature of a file from its leading bytes.
pub fn sniff_signature(buf: &Vec<u8>) -> (r: (&'static str, &'static str))
    ensures
        (r.0@, r.1@) == sniff_spec(buf@),
{
    if has_bytes(buf, &vec![0x7fu8, 0x45, 0x4c, 0x46]) {
        ("application/x-elf", "ELF Executable")
    } else if has_bytes(buf, &vec![0x4du8, 0x5a]) {
        ("application/x-msdownload", "Windows PE")
    } else if has_bytes(buf, &vec![0xfeu8, 0xed, 0xfa]) || has_bytes(buf, &vec![0xcfu8, 0xfa, 0xed, 0xfe]) {
        ("application/x-mach-binary", "Mach-O Binary")
    } else if has_bytes(buf, &vec![0x50u8, 0x4b, 0x03, 0x04]) {
        ("application/zip", "ZIP Archive")
    } else if has_bytes(buf, &vec![0x1fu8, 0x8b]) {
        ("application/gzip", "GZIP Compressed")
    } else if has_bytes(buf, &vec![0x25u8, 0x50, 0x44, 0x46, 0x2d]) {
        ("application/pdf", "PDF Document")
    } else if has_bytes(buf, &vec![0x89u8, 0x50, 0x4e, 0x47, 0x0d, 0x0a, 0x1a, 0x0a]) {
        ("image/png", "PNG Image")
    } else if has_bytes(buf, &vec![0xffu8, 0xd8, 0xff]) {
        ("image/jpeg", "JPEG Image")
    } else if has_bytes(buf, &vec![0x47u8, 0x49, 0x46, 0x38, 0x37, 0x61]) || has_bytes(buf, &vec![0x47u8, 0x49, 0x46, 0x38, 0x39, 0x61]) {
        ("image/gif", "GIF Image")
    } else if has_bytes(buf, &vec![0x52u8, 0x49, 0x46, 0x46]) && buf.len() >= 12 && buf[8] == 0x57 && buf[9] == 0x45 && buf[10] == 0x42 && buf[11] == 0x50 {
        assert(buf@.subrange(8, 12) =~= seq![0x57u8, 0x45, 0x42, 0x50]);
        ("image/webp", "WebP Image")
    } else {
        proof {
            if buf@.len() >= 12 && buf@.subrange(8, 12) == seq![0x57u8, 0x45, 0x42, 0x50] {
                assert(buf@[8] == buf@.subrange(8, 12)[0]);
                assert(buf@[9] == buf@.subrange(8, 12)[1]);
                assert(buf@[10] == buf@.subrange(8, 12)[2]);
                assert(buf@[11] == buf@.subrange(8, 12)[3]);
            }
        }
        ("application/octet-stream", "Binary Data")
    }
}

pub open spec fn lower_name(path: Seq<char>) -> Seq<char> {
    match path_file_name_spec(path) {
        Some(n) => ascii_lower(n),
        None => Seq::empty(),
    }
}

pub open spec fn lower_extension(path: Seq<char>) -> Seq<char> {
    match path_extension_spec(path) {
        Some(e) => ascii_lower(e),
        None => Seq::empty(),
    }
}

fn lower_opt(p: Option<String>) -> (r: String)
    ensures
        r@ == match crate::domain::preview::opt_view(p) {
            Some(v) => ascii_lower(v),
            None => Seq::empty(),
        },
{
    match p {
        Some(v) => to_ascii_lowercase(v.as_str()),
        None => String::new(),
    }
}

/// How a text-like file is described: by a well-known name, else by its MIME type.
pub open spec fn text_signature_spec(path: Seq<char>, mime: Seq<char>) -> Seq<char> {
    let name = lower_name(path);
    if name == "dockerfile"@ {
        "Dockerfile"@
    } else if name == "makefile"@ {
        "Makefile"@
    } else if name == "justfile"@ {
        "Justfile"@
    } else if mime == "text/markdown"@ {
        "Markdown Document"@
    } else if starts_with(mime, "text/"@) {
        "Text / Source"@
    } else if mime == "application/json"@ {
        "JSON Document"@
    } else {
        "Structured Text"@
    }
}

pub fn describe_text_signature(path: &str, mime: &str) -> (r: String)
    ensures
        r@ == text_signature_spec(path@, mime@),
{
    let name = lower_opt(path_file_name(path));
    let n = name.as_str();
    if str_eq(n, "dockerfile") {
        String::from_str("Dockerfile")
    } else if str_eq(n, "makefile") {
        String::from_str("Makefile")
    } else if str_eq(n, "justfile") {
        String::from_str("Justfile")
    } else if str_eq(mime, "text/markdown") {
        String::from_str("Markdown Document")
    } else if str_starts_with(mime, "text/") {
        String::from_str("Text / Source")
    } else if str_eq(mime, "application/json") {
        String::from_str("JSON Document")
    } else {
        String::from_str("Structured Text")
    }
}

/// The MIME type, corrected for extensions that tools commonly misreport.
pub open spec fn normalized_mime_spec(path: Seq<char>, mime: Seq<char>) -> Seq<char> {
    let ext = lower_extension(path);
    if ext == "md"@ || ext == "markdown"@ {
        "text/markdown"@
    } else if ext == "json"@ {
        "application/json"@
    } else if ext == "yaml"@ || ext == "yml"@ {
        "text/yaml"@
    } else if ext == "toml"@ {
        "text/x-toml"@
    } else if ext == "xml"@ {
        "application/xml"@
    } else {
        mime
    }
}

pub fn normalize_mime_by_extension(path: &str, mime: String) -> (r: String)
    ensures
        r@ == normalized_mime_spec(path@, mime@),
{
    let ext = lower_opt(path_extension(path));
    let e = ext.as_str();
    if str_eq(e, "md") || str_eq(e, "markdown") {
        String::from_str("text/markdown")
    } else if str_eq(e, "json") {
        String::from_str("application/json")
    } else if str_eq(e, "yaml") || str_eq(e, "yml") {
        String::from_str("text/yaml")
    } else if str_eq(e, "toml") {
        String::from_str("text/x-toml")
    } else if str_eq(e, "xml") {
        String::from_str("application/xml")
    } else {
        mime
    }
}

/// What the `file --mime-type` tool printed, trimmed; nothing when it printed nothing.
pub open spec fn tool_mime_spec(out: Seq<char>) -> Option<Seq<char>> {
    if trim_ws(out).len() > 0 {
        Some(trim_ws(out))
    } else {
        None
    }
}

pub fn mime_from_tool_output(out: &str) -> (r: Option<String>)
    ensures
        crate::domain::preview::opt_view(r) == tool_mime_spec(out@),
{
    let t = trim(out);
    if t.as_str().unicode_len() == 0 {
        None
    } else {
        Some(t)
    }
}

/// The digest that `md5sum` printed: its first word.
pub open spec fn md5_output_spec(out: Seq<char>) -> Option<Seq<char>> {
    if text_words(out).len() > 0 {
        Some(text_words(out)[0])
    } else {
        None
    }
}

pub fn md5_from_tool_output(out: &str) -> (r: Option<String>)
    ensures
        crate::domain::preview::opt_view(r) == md5_output_spec(out@),
{
    let mut w = words_of(out);
    if w.len() == 0 {
        None
    } else {
        assert(views(w@)[0] == w@[0]@);
        Some(w.swap_remove(0))
    }
}

/// Whether a file is small enough to be hashed.
pub fn should_hash(is_file: bool, len: u64) -> (r: bool)
    ensures
        r == (is_file && len <= HASH_LIMIT),
{
    is_file && len <= HASH_LIMIT
}

/// Extensions of harmless document, media and archive files.
pub open spec fn safe_extensions() -> Seq<Seq<char>> {
    seq![
        "jpg"@, "jpeg"@, "png"@, "gif"@, "bmp"@, "webp"@, "svg"@, "ico"@, "txt"@, "md"@, "pdf"@, "doc"@,
        "docx"@, "xls"@, "xlsx"@, "mp3"@, "mp4"@, "avi"@, "mkv"@, "mov"@, "wav"@, "flac"@, "zip"@, "rar"@,
        "7z"@, "tar"@, "gz"@, "bz2"@,
    ]
}

pub open spec fn is_executable_mime(m: Seq<char>) -> bool {
    m == "application/x-elf"@ || m == "application/x-mach-binary"@ || m == "application/x-msdownload"@
}

pub struct FileAnalysisView {
    pub mime_type: Seq<char>,
    pub extension: Seq<char>,
    pub is_suspicious: bool,
    pub md5_hash: Option<Seq<char>>,
    pub md5_state: Md5State,
    pub file_signature: Seq<char>,
}

impl View for FileAnalysis {
    type V = FileAnalysisView;

    open spec fn view(&self) -> FileAnalysisView {
        FileAnalysisView {
            mime_type: self.mime_type@,
            extension: self.extension@,
            is_suspicious: self.is_suspicious,
            md5_hash: crate::domain::preview::opt_view(self.md5_hash),
            md5_state: self.md5_state,
            file_signature: self.file_signature@,
        }
    }
}

/// The analysis of a file from its leading bytes, the type the `file` tool reported (if
/// any), whether it is hashed (see `should_hash`) and the digest obtained: the MIME type
/// is the tool's, else the sniffed one, corrected by extension; an unrecognised signature
/// is described from the MIME type; a harmless extension on an executable is suspicious.
pub open spec fn analysis_spec(
    path: Seq<char>,
    head: Seq<u8>,
    tool_mime: Option<Seq<char>>,
    hashed: bool,
    md5: Option<Seq<char>>,
) -> FileAnalysisView {
    let (sniffed_mime, sniffed_sig) = sniff_spec(head);
    let mime = normalized_mime_spec(path, match tool_mime { Some(m) => m, None => sniffed_mime });
    let ext = lower_extension(path);
    FileAnalysisView {
        mime_type: mime,
        extension: ext,
        is_suspicious: safe_extensions().contains(ext) && (is_executable_mime(sniffed_mime) || is_executable_mime(mime)),
        md5_hash: if hashed { md5 } else { None },
        md5_state: if !hashed { Md5State::LargeFile } else if md5 is Some { Md5State::Ready } else { Md5State::Unavailable },
        file_signature: if sniffed_sig == "Binary Data"@ && !starts_with(mime, "application/octet-stream"@) {
            text_signature_spec(path, mime)
        } else {
            sniffed_sig
        },
    }
}

fn in_list(x: &str, list: &Vec<&str>) -> (r: bool)
    ensures
        r == views(list@).contains(x@),
{
    let mut i: usize = 0;
    while i < list.len()
        invariant
            i <= list.len(),
            forall|j: int| 0 <= j < i ==> views(list@)[j] != x@,
        decreases list.len() - i,
    {
        if str_eq(list[i], x) {
            assert(views(list@)[i as int] == x@);
            return true;
        }
        i = i + 1;
    }
    false
}

fn executable_mime(m: &str) -> (r: bool)
    ensures
        r == is_executable_mime(m@),
{
    str_eq(m, "application/x-elf") || str_eq(m, "application/x-mach-binary") || str_eq(m, "application/x-msdownload")
}

/// Analyses a file from what was read of it.
pub fn analyze(path: &str, head: &Vec<u8>, tool_mime: Option<String>, hashed: bool, md5: Option<String>) -> (r: FileAnalysis)
    ensures
        r@ == analysis_spec(path@, head@, crate::domain::preview::opt_view(tool_mime), hashed, crate::domain::preview::opt_view(md5)),
{
    let (sniffed_mime, sniffed_sig) = sniff_signature(head);
    let base = match tool_mime {
        Some(m) => m,
        None => String::from_str(sniffed_mime),
    };
    let mime = normalize_mime_by_extension(path, base);
    let extension = lower_opt(path_extension(path));
    let safe = vec![
        "jpg", "jpeg", "png", "gif", "bmp", "webp", "svg", "ico", "txt", "md", "pdf", "doc",
        "docx", "xls", "xlsx", "mp3", "mp4", "avi", "mkv", "mov", "wav", "flac", "zip", "rar",
        "7z", "tar", "gz", "bz2",
    ];
    assert(views(safe@) =~= safe_extensions());
    let is_suspicious = in_list(extension.as_str(), &safe) && (executable_mime(sniffed_mime) || executable_mime(mime.as_str()));
    let file_signature = if str_eq(sniffed_sig, "Binary Data") && !str_starts_with(mime.as_str(), "application/octet-stream") {
        describe_text_signature(path, mime.as_str())
    } else {
        String::from_str(sniffed_sig)
    };
    let (md5_hash, md5_state) = if hashed {
        match md5 {
            Some(h) => (Some(h), Md5State::Ready),
            None => (None, Md5State::Unavailable),
        }
    } else {
        (None, Md5State::LargeFile)
    };
    FileAnalysis { mime_type: mime, extension, is_suspicious, md5_hash, md5_state, file_signature }
}

} // verus!
