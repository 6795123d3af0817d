//! Where the browser starts.
use vstd::prelude::*;
use crate::paths::{path_parent, path_parent_spec};

verus! {

/// The directory the browser opens and the entry it selects: a file opens its parent
/// directory (`.` when it has none) with the file selected; a directory opens itself.
pub open spec fn start_spec(path: Seq<char>, is_file: bool) -> (Seq<char>, Option<Seq<char>>) {
    if is_file {
        (
            match path_parent_spec(path) {
                Some(p) => p,
                None => seq!['.'],
            },
            Some(path),
        )
    } else {
        (path, None)
    }
}

pub fn start_location(path: &str, is_file: bool) -> (r: (String, Option<String>))
    ensures
        (r.0@, crate::domain::preview::opt_view(r.1)) == start_spec(path@, is_file),
{
    if is_file {
        let dir = match path_parent(path) {
            Some(p) => p,
            None => {
                let d = String::from_str(".");
                proof {
                    reveal_strlit(".");
                    assert(d@ =~= seq!['.']);
                }
                d
            },
        };
        (dir, Some(String::from_str(path)))
    } else {
        (String::from_str(path), None)
    }
}

} // verus!
