use vstd::prelude::*;

verus! {

/// What a directory entry is, as far as previewing goes.
#[derive(Debug, Clone, Copy, PartialEq, Eq, Structural)]
pub enum EntryKind {
    Directory,
    Markdown,
    Code,
    Text,
    Archive,
    Pdf,
    Image,
    Binary,
    Unknown,
}

/// One entry of a directory listing. `mtime` counts nanoseconds since the Unix epoch.
#[derive(Debug, Clone)]
pub struct EntryItem {
    pub path: String,
    pub name: String,
    pub kind: EntryKind,
    pub is_hidden: bool,
    pub is_symlink: bool,
    pub size: Option<u64>,
    pub mtime: Option<u64>,
    pub note: Option<String>,
    pub auto_summary: Option<String>,
}

pub fn duplicate_opt_string(s: &Option<String>) -> (r: Option<String>)
    ensures
        r == *s,
{
    match s {
        Some(v) => Some(v.clone()),
        None => None,
    }
}

/// The name shown for an entry: directories get a trailing `/`.
pub open spec fn display_name_spec(name: Seq<char>, kind: EntryKind) -> Seq<char> {
    if kind == EntryKind::Directory {
        name.push('/')
    } else {
        name
    }
}

impl EntryItem {
    pub fn display_name(&self) -> (r: String)
        ensures
            r@ == display_name_spec(self.name@, self.kind),
    {
        let mut r = self.name.clone();
        if self.kind == EntryKind::Directory {
            crate::text::push_char(&mut r, '/');
        }
        r
    }

    /// An equal copy of this entry.
    pub fn duplicate(&self) -> (r: EntryItem)
        ensures
            r == *self,
    {
        EntryItem {
            path: self.path.clone(),
            name: self.name.clone(),
            kind: self.kind,
            is_hidden: self.is_hidden,
            is_symlink: self.is_symlink,
            size: self.size,
            mtime: self.mtime,
            note: duplicate_opt_string(&self.note),
            auto_summary: duplicate_opt_string(&self.auto_summary),
        }
    }
}

} // verus!
