//! Facts about image files for a preview: format, pixel size, and how a terminal can show them.
use vstd::prelude::*;
use crate::text::{chars_of, contains_seq, str_contains, str_eq, str_uppercase, string_from, to_uppercase, views};
use crate::paths::{lower_ext, lower_extension, path_extension, path_extension_spec};
use crate::infra::fs::{image_extensions, in_list};
use crate::infra::providers::image::{dimensions_spec, image_dimensions};

verus! {

/// How images are shown.
#[derive(Debug, Clone, Copy, PartialEq, Eq, Structural)]
pub enum ImageBackend {
    /// The terminal draws images itself.
    Kitty,
    /// An overlay drawn by `ueberzugpp`.
    Ueberzug,
    /// Character art drawn by `chafa`.
    Chafa,
    /// The desktop's default viewer.
    External,
}

/// What is known of an image.
#[derive(Debug, Clone)]
pub struct ImageInfo {
    pub width: u32,
    pub height: u32,
    pub format: String,
    pub color_type: String,
    pub exif_data: Vec<(String, String)>,
    pub backend: ImageBackend,
}

/// Whether a path names an image by its extension (case ignored).
pub open spec fn is_image_path(path: Seq<char>) -> bool {
    image_extensions().contains(lower_ext(path))
}

pub fn is_image_file(path: &str) -> (r: bool)
    ensures
        r == is_image_path(path@),
{
    let ext = lower_extension(path);
    let list = vec!["png", "jpg", "jpeg", "gif", "bmp", "webp", "svg", "ico", "tif", "tiff"];
    assert(views(list@) =~= image_extensions());
    in_list(ext.as_str(), &list)
}

/// Whether the terminal draws images itself: its `TERM` mentions kitty, or `TERM_PROGRAM`
/// is WezTerm or iTerm.
pub open spec fn kitty_terminal(term: Option<Seq<char>>, term_program: Option<Seq<char>>) -> bool {
    (match term {
        Some(t) => contains_seq(t, "kitty"@),
        None => false,
    }) || (match term_program {
        Some(p) => p == "WezTerm"@ || p == "iTerm.app"@,
        None => false,
    })
}

/// Whether the terminal described by `TERM` and `TERM_PROGRAM` (where set) draws images.
pub fn supports_kitty_graphics(term: Option<&str>, term_program: Option<&str>) -> (r: bool)
    ensures
        r == kitty_terminal(
            match term { Some(t) => Some(t@), None => None },
            match term_program { Some(p) => Some(p@), None => None },
        ),
{
    proof {
        reveal_strlit("WezTerm");
        reveal_strlit("iTerm.app");
    }
    let by_term = match term {
        Some(t) => str_contains(t, "kitty"),
        None => false,
    };
    let by_program = match term_program {
        Some(p) => str_eq(p, "WezTerm") || str_eq(p, "iTerm.app"),
        None => false,
    };
    by_term || by_program
}

pub open spec fn backend_choice(kitty: bool, has_ueberzug: bool, has_chafa: bool) -> ImageBackend {
    if kitty {
        ImageBackend::Kitty
    } else if has_ueberzug {
        ImageBackend::Ueberzug
    } else if has_chafa {
        ImageBackend::Chafa
    } else {
        ImageBackend::External
    }
}

/// The backend to use: the terminal's own graphics, else `ueberzugpp`, else `chafa` where
/// installed, else the desktop viewer.
pub fn choose_backend(kitty: bool, has_ueberzug: bool, has_chafa: bool) -> (r: ImageBackend)
    ensures
        r == backend_choice(kitty, has_ueberzug, has_chafa),
{
    if kitty {
        ImageBackend::Kitty
    } else if has_ueberzug {
        ImageBackend::Ueberzug
    } else if has_chafa {
        ImageBackend::Chafa
    } else {
        ImageBackend::External
    }
}

pub open spec fn backend_label(b: ImageBackend) -> Seq<char> {
    match b {
        ImageBackend::Kitty => "Kitty / Inline protocol"@,
        ImageBackend::Ueberzug => "Überzug++"@,
        ImageBackend::Chafa => "Chafa"@,
        ImageBackend::External => "System viewer"@,
    }
}

/// The name a backend is shown under.
pub fn backend_name(backend: &ImageBackend) -> (r: &'static str)
    ensures
        r@ == backend_label(*backend),
{
    match backend {
        ImageBackend::Kitty => "Kitty / Inline protocol",
        ImageBackend::Ueberzug => "Überzug++",
        ImageBackend::Chafa => "Chafa",
        ImageBackend::External => "System viewer",
    }
}

/// The format an image is reported as: its extension in upper case, or `UNKNOWN`.
pub open spec fn image_format(path: Seq<char>) -> Seq<char> {
    match path_extension_spec(path) {
        Some(e) => str_uppercase(e),
        None => str_uppercase("unknown"@),
    }
}

pub open spec fn color_note() -> Seq<char> {
    "Preview via terminal adapter / external app"@
}

/// What is known of the image at `path` from its first bytes `head`: the pixel size of a PNG,
/// GIF, BMP or JPEG header (zero where none is recognised), the format by extension, no EXIF
/// data, and the backend that will show it.
pub fn get_image_info(path: &str, head: &Vec<u8>, backend: ImageBackend) -> (r: ImageInfo)
    ensures
        (r.width, r.height) == dimensions_spec(head@),
        r.format@ == image_format(path@),
        r.color_type@ == color_note(),
        r.exif_data@.len() == 0,
        r.backend == backend,
{
    let (width, height) = image_dimensions(head);
    let format = match path_extension(path) {
        Some(e) => to_uppercase(e.as_str()),
        None => to_uppercase("unknown"),
    };
    ImageInfo {
        width,
        height,
        format,
        color_type: string_from(&chars_of("Preview via terminal adapter / external app")),
        exif_data: Vec::new(),
        backend,
    }
}

} // verus!
