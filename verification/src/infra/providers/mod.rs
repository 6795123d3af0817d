//! Which previewer handles an entry, and what every preview shares.
use vstd::prelude::*;
use crate::domain::entry::EntryKind;
use crate::domain::preview::{plain_span, PreviewDocView, PreviewKind, PreviewLine, PreviewResult, PreviewWrapMode};
use crate::infra::analyzer::{FileAnalysis, FileAnalysisView, Md5State};
use crate::text::{append_str, ascii_lower, chars_of, decimal_string, push_char, to_ascii_lowercase, trim_end_newlines, views};

pub mod archive;
pub mod markdown;
pub mod text;
pub mod image;
pub mod pdf;

verus! {

/// Where a preview is shown: the one-shot inspection or the browser.
#[derive(Debug, Clone, Copy, PartialEq, Eq, Structural)]
pub enum PreviewSurface {
    Inspect,
    Tui,
}

/// A request for the preview of one path.
#[derive(Debug, Clone)]
pub struct PreviewRequest {
    pub path: String,
    pub kind: EntryKind,
    pub size: Option<u64>,
    pub viewport_hint: usize,
    pub surface: PreviewSurface,
}

/// The previewers, in the order they are asked.
#[derive(Debug, Clone, Copy, PartialEq, Eq, Structural)]
pub enum ProviderChoice {
    Directory,
    Markdown,
    Text,
    Archive,
    Pdf,
    Image,
    Unsupported,
}

/// The previewer for an entry kind: directories are listed, and the first previewer that
/// supports the kind takes it.
pub open spec fn provider_for_spec(kind: EntryKind) -> ProviderChoice {
    match kind {
        EntryKind::Directory => ProviderChoice::Directory,
        EntryKind::Markdown => ProviderChoice::Markdown,
        EntryKind::Text | EntryKind::Code | EntryKind::Binary | EntryKind::Unknown => ProviderChoice::Text,
        EntryKind::Archive => ProviderChoice::Archive,
        EntryKind::Pdf => ProviderChoice::Pdf,
        EntryKind::Image => ProviderChoice::Image,
    }
}

/// The title of a preview: the file name, or the path where it has none.
pub fn title_for(path: &str) -> (r: String)
    ensures
        r@ == archive::title_spec(path@),
{
    archive::title_for(path)
}

/// How many children a directory preview lists.
pub fn directory_listing_limit(viewport_hint: usize) -> (r: usize)
    ensures
        r == (if viewport_hint > 20 { viewport_hint } else { 20 }),
{
    if viewport_hint > 20 { viewport_hint } else { 20 }
}

pub open spec fn plain_line_of(t: Seq<char>) -> Seq<crate::domain::preview::PreviewSpanView> {
    seq![plain_span(trim_end_newlines(t))]
}

/// The preview of a directory showing the given child names.
pub open spec fn directory_result_spec(path: Seq<char>, names: Seq<Seq<char>>) -> PreviewDocView {
    PreviewDocView {
        kind: PreviewKind::Directory,
        title: archive::title_spec(path),
        subtitle: Some(path),
        provider_name: "目录"@,
        degraded: false,
        metadata: seq![("已显示子项"@, crate::text::decimal(names.len()))],
        warnings: Seq::empty(),
        actions: seq!["回车：进入/打开"@],
        wrap_mode: PreviewWrapMode::NoWrap,
        lines: seq![plain_line_of(path), plain_line_of(Seq::empty())] + names.map_values(|n: Seq<char>| plain_line_of(n)),
        first_line_number: 1,
    }
}

pub fn directory_preview_result(path: &str, names: &Vec<String>) -> (r: PreviewResult)
    ensures
        r@ == directory_result_spec(path@, views(names@)),
{
    let mut lines: Vec<PreviewLine> = Vec::new();
    lines.push(PreviewLine::plain(path));
    lines.push(PreviewLine::plain(""));
    proof {
        reveal_strlit("");
    }
    let mut i: usize = 0;
    while i < names.len()
        invariant
            i <= names.len(),
            views(lines@) == seq![plain_line_of(path@), plain_line_of(""@)] + views(names@).take(i as int).map_values(|n: Seq<char>| plain_line_of(n)),
        decreases names.len() - i,
    {
        let l = PreviewLine::plain(names[i].as_str());
        let ghost before = lines@;
        lines.push(l);
        assert(views(lines@) =~= views(before).push(l@));
        assert(views(names@).take(i + 1).map_values(|n: Seq<char>| plain_line_of(n)) =~= views(names@).take(i as int).map_values(|n: Seq<char>| plain_line_of(n)).push(plain_line_of(names@[i as int]@)));
        i = i + 1;
    }
    assert(views(names@).take(names.len() as int) =~= views(names@));
    assert(""@ =~= Seq::<char>::empty());
    let mut metadata: Vec<(String, String)> = Vec::new();
    metadata.push((String::from_str("已显示子项"), decimal_string(names.len() as u64)));
    assert(views(metadata@) =~= seq![("已显示子项"@, crate::text::decimal(names.len() as nat))]);
    let mut actions: Vec<String> = Vec::new();
    actions.push(String::from_str("回车：进入/打开"));
    assert(views(actions@) =~= seq!["回车：进入/打开"@]);
    let warnings: Vec<String> = Vec::new();
    assert(views(warnings@) =~= Seq::<Seq<char>>::empty());
    PreviewResult {
        kind: PreviewKind::Directory,
        title: title_for(path),
        subtitle: Some(String::from_str(path)),
        provider_name: String::from_str("目录"),
        degraded: false,
        metadata,
        warnings,
        actions,
        wrap_mode: PreviewWrapMode::NoWrap,
        lines,
        first_line_number: 1,
    }
}

/// The preview shown where no previewer can help, with `message` as its only line.
pub open spec fn unsupported_spec(path: Seq<char>, message: Seq<char>) -> PreviewDocView {
    PreviewDocView {
        kind: PreviewKind::Unsupported,
        title: archive::title_spec(path),
        subtitle: Some(path),
        provider_name: "未支持"@,
        degraded: true,
        metadata: Seq::empty(),
        warnings: seq![message],
        actions: seq!["o：外部打开"@],
        wrap_mode: PreviewWrapMode::Wrap,
        lines: seq![plain_line_of(message)],
        first_line_number: 1,
    }
}

pub fn unsupported_preview(path: &str, message: &str) -> (r: PreviewResult)
    ensures
        r@ == unsupported_spec(path@, message@),
{
    let mut warnings: Vec<String> = Vec::new();
    warnings.push(String::from_str(message));
    assert(views(warnings@) =~= seq![message@]);
    let mut actions: Vec<String> = Vec::new();
    actions.push(String::from_str("o：外部打开"));
    assert(views(actions@) =~= seq!["o：外部打开"@]);
    let mut lines: Vec<PreviewLine> = Vec::new();
    lines.push(PreviewLine::plain(message));
    assert(views(lines@) =~= seq![plain_line_of(message@)]);
    let metadata: Vec<(String, String)> = Vec::new();
    assert(views(metadata@) =~= Seq::<(Seq<char>, Seq<char>)>::empty());
    PreviewResult {
        kind: PreviewKind::Unsupported,
        title: title_for(path),
        subtitle: Some(String::from_str(path)),
        provider_name: String::from_str("未支持"),
        degraded: true,
        metadata,
        warnings,
        actions,
        wrap_mode: PreviewWrapMode::Wrap,
        lines,
        first_line_number: 1,
    }
}

/// Metadata with `(key, value)` added unless a key equal to `key` up to ASCII case is there.
pub open spec fn with_unique(md: Seq<(Seq<char>, Seq<char>)>, key: Seq<char>, value: Seq<char>) -> Seq<(Seq<char>, Seq<char>)> {
    if exists|i: int| 0 <= i < md.len() && ascii_lower(#[trigger] md[i].0) == ascii_lower(key) {
        md
    } else {
        md.push((key, value))
    }
}

pub fn append_unique_metadata(metadata: &mut Vec<(String, String)>, key: &str, value: String)
    ensures
        views(final(metadata)@) == with_unique(views(old(metadata)@), key@, value@),
{
    let k = to_ascii_lowercase(key);
    let mut i: usize = 0;
    while i < metadata.len()
        invariant
            i <= metadata.len(),
            k@ == ascii_lower(key@),
            forall|j: int| 0 <= j < i ==> ascii_lower(#[trigger] views(metadata@)[j].0) != ascii_lower(key@),
        decreases metadata.len() - i,
    {
        let e = to_ascii_lowercase(metadata[i].0.as_str());
        if crate::text::str_eq(e.as_str(), k.as_str()) {
            assert(ascii_lower(views(metadata@)[i as int].0) == ascii_lower(key@));
            return;
        }
        i = i + 1;
    }
    let ghost before = metadata@;
    metadata.push((String::from_str(key), value));
    assert(views(metadata@) =~= views(before).push((key@, value@)));
}

/// Whether `v` holds `s`.
pub fn has_string(v: &Vec<String>, s: &str) -> (r: bool)
    ensures
        r == views(v@).contains(s@),
{
    let mut i: usize = 0;
    while i < v.len()
        invariant
            i <= v.len(),
            forall|j: int| 0 <= j < i ==> views(v@)[j] != s@,
        decreases v.len() - i,
    {
        if crate::text::str_eq(v[i].as_str(), s) {
            assert(views(v@)[i as int] == s@);
            return true;
        }
        i = i + 1;
    }
    false
}

/// The warning added when a harmless-looking name hides an executable.
pub open spec fn disguise_warning() -> Seq<char> {
    "文件扩展名与真实类型不一致，可能存在伪装或可执行风险"@
}

pub open spec fn extension_label(ext: Seq<char>) -> Seq<char> {
    if ext.len() == 0 {
        seq!['-']
    } else {
        seq!['.'] + ext
    }
}

pub open spec fn md5_label(a: FileAnalysisView) -> Seq<char> {
    match a.md5_state {
        Md5State::Ready => match a.md5_hash {
            Some(h) => h,
            None => "<unavailable>"@,
        },
        Md5State::LargeFile => "<large file>"@,
        Md5State::Unavailable => "<unavailable>"@,
    }
}

/// A preview with the file analysis added: signature, MIME type, extension and digest rows
/// (each unless already there), and the disguise warning once for a suspicious file.
/// Directories and files that could not be analysed are left as they are.
pub open spec fn enrich_spec(kind: EntryKind, doc: PreviewDocView, analysis: Option<FileAnalysisView>) -> PreviewDocView {
    match analysis {
        Some(a) => if kind == EntryKind::Directory {
            doc
        } else {
            let m1 = with_unique(doc.metadata, "Real"@, a.file_signature);
            let m2 = with_unique(m1, "MIME"@, a.mime_type);
            let m3 = with_unique(m2, "Ext"@, extension_label(a.extension));
            let m4 = with_unique(m3, "MD5"@, md5_label(a));
            PreviewDocView {
                metadata: m4,
                warnings: if a.is_suspicious && !doc.warnings.contains(disguise_warning()) {
                    doc.warnings.push(disguise_warning())
                } else {
                    doc.warnings
                },
                ..doc
            }
        },
        None => doc,
    }
}

pub fn enrich_preview_result(kind: EntryKind, result: PreviewResult, analysis: Option<FileAnalysis>) -> (r: PreviewResult)
    ensures
        r@ == enrich_spec(kind, result@, match analysis { Some(a) => Some(a@), None => None }),
{
    let mut result = result;
    if kind == EntryKind::Directory {
        return result;
    }
    let a = match analysis {
        Some(a) => a,
        None => return result,
    };
    append_unique_metadata(&mut result.metadata, "Real", a.file_signature);
    append_unique_metadata(&mut result.metadata, "MIME", a.mime_type);
    let ext = if a.extension.as_str().unicode_len() == 0 {
        String::from_str("-")
    } else {
        let mut e = String::new();
        push_char(&mut e, '.');
        append_str(&mut e, a.extension.as_str());
        e
    };
    proof {
        reveal_strlit("-");
        assert(ext@ =~= extension_label(a.extension@));
    }
    append_unique_metadata(&mut result.metadata, "Ext", ext);
    let md5 = match a.md5_state {
        Md5State::Ready => match a.md5_hash {
            Some(h) => h,
            None => String::from_str("<unavailable>"),
        },
        Md5State::LargeFile => String::from_str("<large file>"),
        Md5State::Unavailable => String::from_str("<unavailable>"),
    };
    append_unique_metadata(&mut result.metadata, "MD5", md5);
    if a.is_suspicious {
        let present = has_string(&result.warnings, "文件扩展名与真实类型不一致，可能存在伪装或可执行风险");
        if !present {
            let ghost before = result.warnings@;
            result.warnings.push(String::from_str("文件扩展名与真实类型不一致，可能存在伪装或可执行风险"));
            assert(views(result.warnings@) =~= views(before).push(disguise_warning()));
        }
    }
    result
}


/// Renders Markdown files.
#[derive(Debug, Clone, Copy)]
pub struct MarkdownProvider;

/// Shows text and code, and what is left of unknown or binary files.
#[derive(Debug, Clone, Copy)]
pub struct TextProvider;

/// Shows archive listings as trees.
#[derive(Debug, Clone, Copy)]
pub struct ArchiveProvider;

/// Shows PDF text and document information.
#[derive(Debug, Clone, Copy)]
pub struct PdfProvider;

/// Shows image dimensions.
#[derive(Debug, Clone, Copy)]
pub struct ImageProvider;

impl MarkdownProvider {
    pub fn supports(&self, request: &PreviewRequest) -> (r: bool)
        ensures
            r == (request.kind == EntryKind::Markdown),
    {
        request.kind == EntryKind::Markdown
    }
}

impl TextProvider {
    pub fn supports(&self, request: &PreviewRequest) -> (r: bool)
        ensures
            r == (request.kind == EntryKind::Text || request.kind == EntryKind::Code || request.kind == EntryKind::Binary
                || request.kind == EntryKind::Unknown),
    {
        request.kind == EntryKind::Text || request.kind == EntryKind::Code || request.kind == EntryKind::Binary
            || request.kind == EntryKind::Unknown
    }
}

impl ArchiveProvider {
    pub fn supports(&self, request: &PreviewRequest) -> (r: bool)
        ensures
            r == (request.kind == EntryKind::Archive),
    {
        request.kind == EntryKind::Archive
    }
}

impl PdfProvider {
    pub fn supports(&self, request: &PreviewRequest) -> (r: bool)
        ensures
            r == (request.kind == EntryKind::Pdf),
    {
        request.kind == EntryKind::Pdf
    }
}

impl ImageProvider {
    pub fn supports(&self, request: &PreviewRequest) -> (r: bool)
        ensures
            r == (request.kind == EntryKind::Image),
    {
        request.kind == EntryKind::Image
    }
}

/// Hands a preview request to the previewer for its kind.
#[derive(Debug, Clone, Copy, Default)]
pub struct PreviewService;

impl PreviewService {
    /// The request for the preview of a listed entry.
    pub fn request_for_entry(&self, entry: &crate::domain::entry::EntryItem, viewport_hint: usize, surface: PreviewSurface) -> (r: PreviewRequest)
        ensures
            r.path@ == entry.path@,
            r.kind == entry.kind,
            r.size == entry.size,
            r.viewport_hint == viewport_hint,
            r.surface == surface,
    {
        PreviewRequest { path: entry.path.clone(), kind: entry.kind, size: entry.size, viewport_hint, surface }
    }

    /// The previewer a request goes to: the first, in the order markdown, text, archive,
    /// PDF, image, that supports it; directories are listed.
    pub fn provider_for_request(&self, request: &PreviewRequest) -> (r: ProviderChoice)
        ensures
            r == provider_for_spec(request.kind),
    {
        if request.kind == EntryKind::Directory {
            return ProviderChoice::Directory;
        }
        if MarkdownProvider.supports(request) {
            return ProviderChoice::Markdown;
        }
        if TextProvider.supports(request) {
            return ProviderChoice::Text;
        }
        if ArchiveProvider.supports(request) {
            return ProviderChoice::Archive;
        }
        if PdfProvider.supports(request) {
            return ProviderChoice::Pdf;
        }
        if ImageProvider.supports(request) {
            return ProviderChoice::Image;
        }
        ProviderChoice::Unsupported
    }
}

/// Opens files with the system's default application.
#[derive(Debug, Default, Clone, Copy)]
pub struct SystemExternalOpenProvider;

impl SystemExternalOpenProvider {
    /// How the opener is named in messages.
    pub fn name(&self) -> (r: &'static str)
        ensures
            r@ == "系统默认打开器"@,
    {
        "系统默认打开器"
    }
}

} // verus!
