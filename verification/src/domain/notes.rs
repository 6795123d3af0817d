use vstd::prelude::*;

verus! {

/// A note attached to a path.
#[derive(Debug, Clone)]
pub struct NoteRecord {
    pub path: String,
    pub note: String,
}

} // verus!
