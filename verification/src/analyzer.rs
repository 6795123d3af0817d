//! A file's type, checked against its name, from its first bytes.
use vstd::prelude::*;
use crate::text::{str_eq, string_from, chars_of, views};
use crate::paths::{lower_ext, lower_extension};
use crate::infra::fs::in_list;
use crate::infra::analyzer::{is_executable_mime, safe_extensions, sniff_signature, sniff_spec};

verus! {

/// What a file's first bytes say about it, against its name.
#[derive(Debug, Clone, Default)]
pub struct FileSecurityInfo {
    pub mime_type: String,
    pub extension: String,
    pub is_suspicious: bool,
    pub md5_hash: Option<String>,
    pub file_signature: String,
}

/// The report on a file from its leading bytes, whether it is hashed and the digest
/// obtained: type and signature as sniffed, the extension in lower case, suspicious where an
/// executable carries a harmless extension.
pub fn security_info(path: &str, head: &Vec<u8>, hashed: bool, md5: Option<String>) -> (r: FileSecurityInfo)
    ensures
        (r.mime_type@, r.file_signature@) == sniff_spec(head@),
        r.extension@ == lower_ext(path@),
        r.is_suspicious == (safe_extensions().contains(lower_ext(path@)) && is_executable_mime(sniff_spec(head@).0)),
        crate::domain::preview::opt_view(r.md5_hash) == (if hashed { crate::domain::preview::opt_view(md5) } else { None }),
{
    let (mime, signature) = sniff_signature(head);
    let extension = lower_extension(path);
    let safe = vec![
        "jpg", "jpeg", "png", "gif", "bmp", "webp", "svg", "ico", "txt", "md", "pdf", "doc",
        "docx", "xls", "xlsx", "mp3", "mp4", "avi", "mkv", "mov", "wav", "flac", "zip", "rar",
        "7z", "tar", "gz", "bz2",
    ];
    assert(views(safe@) =~= safe_extensions());
    let executable = str_eq(mime, "application/x-elf") || str_eq(mime, "application/x-mach-binary")
        || str_eq(mime, "application/x-msdownload");
    let is_suspicious = in_list(extension.as_str(), &safe) && executable;
    FileSecurityInfo {
        mime_type: string_from(&chars_of(mime)),
        extension,
        is_suspicious,
        md5_hash: if hashed { md5 } else { None },
        file_signature: string_from(&chars_of(signature)),
    }
}

} // verus!
