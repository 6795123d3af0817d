use vstd::prelude::*;

verus! {

/// A named bookmark of a directory, with an optional note.
#[derive(Debug, Clone)]
pub struct BookmarkRecord {
    pub name: String,
    pub path: String,
    pub note: Option<String>,
}

impl BookmarkRecord {
    /// An equal copy of this record.
    pub fn duplicate(&self) -> (r: BookmarkRecord)
        ensures
            r == *self,
    {
        BookmarkRecord {
            name: self.name.clone(),
            path: self.path.clone(),
            note: match &self.note {
                Some(n) => Some(n.clone()),
                None => None,
            },
        }
    }
}

/// An equal copy of a list of bookmarks.
pub fn duplicate_bookmarks(v: &Vec<BookmarkRecord>) -> (r: Vec<BookmarkRecord>)
    ensures
        r@ == v@,
{
    let mut r: Vec<BookmarkRecord> = Vec::new();
    let mut i: usize = 0;
    while i < v.len()
        invariant
            i <= v.len(),
            r@ == v@.take(i as int),
        decreases v.len() - i,
    {
        r.push(v[i].duplicate());
        assert(v@.take(i as int).push(v@[i as int]) =~= v@.take(i + 1));
        i = i + 1;
    }
    assert(v@.take(v.len() as int) =~= v@);
    r
}

} // verus!
