//! Path operations, as `std::path::Path` performs them on textual paths.
use vstd::prelude::*;
use std::path::Path;
use crate::text::{ascii_lower, is_ascii_seq, str_lowercase, to_lowercase};

verus! {

/// What `Path::parent` returns for this path.
pub uninterp spec fn path_parent_spec(path: Seq<char>) -> Option<Seq<char>>;

/// What `Path::file_name` returns for this path.
pub uninterp spec fn path_file_name_spec(path: Seq<char>) -> Option<Seq<char>>;

/// What `Path::extension` returns for this path.
pub uninterp spec fn path_extension_spec(path: Seq<char>) -> Option<Seq<char>>;

/// `Path::parent`: the path without its last component, if it has one.
#[verifier::external_body]
pub(crate) fn path_parent(path: &str) -> (r: Option<String>)
    ensures
        crate::domain::preview::opt_view(r) == path_parent_spec(path@),
{
    Path::new(path).parent().map(|p| p.to_string_lossy().into_owned())
}

/// `Path::file_name`: the last normal component of the path, if any.
#[verifier::external_body]
pub(crate) fn path_file_name(path: &str) -> (r: Option<String>)
    ensures
        crate::domain::preview::opt_view(r) == path_file_name_spec(path@),
{
    Path::new(path).file_name().map(|n| n.to_string_lossy().into_owned())
}

/// `Path::extension`: the part of the file name after its last dot, if any.
#[verifier::external_body]
pub(crate) fn path_extension(path: &str) -> (r: Option<String>)
    ensures
        crate::domain::preview::opt_view(r) == path_extension_spec(path@),
{
    Path::new(path).extension().map(|n| n.to_string_lossy().into_owned())
}

/// The components `Path::components` yields for this path, each as text.
pub uninterp spec fn path_components_spec(path: Seq<char>) -> Seq<Seq<char>>;

/// `Path::components`: the path's components in order, each as its text (`/` for the root).
#[verifier::external_body]
pub(crate) fn path_components(path: &str) -> (r: Vec<String>)
    ensures
        crate::text::views(r@) == path_components_spec(path@),
{
    Path::new(path).components().map(|c| c.as_os_str().to_string_lossy().into_owned()).collect()
}

/// The key a path is compared by: its components joined with `/`. Paths that compare equal as
/// `Path`s (which compare by components, so `a/b/` and `a//b` equal `a/b`) have one key.
#[verifier::opaque]
pub open spec fn path_key(path: Seq<char>) -> Seq<char> {
    crate::text::join(path_components_spec(path), seq!['/'])
}

/// The key a path is compared by.
pub fn path_key_of(path: &str) -> (r: String)
    ensures
        r@ == path_key(path@),
{
    let comps = path_components(path);
    let r = crate::text::join_strings(&comps, "/");
    proof {
        reveal_strlit("/");
        assert("/"@ =~= seq!['/']);
        reveal(path_key);
    }
    r
}

/// The Unicode lower-case form of a path's extension; empty where it has none.
pub open spec fn lower_ext(path: Seq<char>) -> Seq<char> {
    match path_extension_spec(path) {
        Some(e) => str_lowercase(e),
        None => Seq::empty(),
    }
}

/// The extension of `path` in lower case, or empty.
pub fn lower_extension(path: &str) -> (r: String)
    ensures
        r@ == lower_ext(path@),
        match path_extension_spec(path@) {
            Some(e) => is_ascii_seq(e) ==> r@ == ascii_lower(e),
            None => true,
        },
{
    match path_extension(path) {
        Some(e) => to_lowercase(e.as_str()),
        None => String::new(),
    }
}

} // verus!
