//! Browsable items. An entry stands for one row of a directory listing: the
//! application resolves it from the file system and hands it over as plain
//! values; the core reads only its display name, its full path for equality,
//! and its kind.

use vstd::prelude::*;

verus! {

/// What kind of file-system object an entry is, as the application
/// classified it when listing the directory.
#[derive(Clone, Copy, PartialEq, Eq, Structural, Debug)]
pub enum EntryKind {
    Directory,
    File,
    Other,
}

/// One browsable item.
#[derive(Clone, Debug)]
pub struct Entry {
    /// Full path, used to recognise the previously open directory after
    /// ascending into its parent.
    pub path: String,
    /// Display name (the path's last component, or the parent-directory
    /// marker).
    pub name: String,
    pub kind: EntryKind,
}

impl Entry {
    pub fn new(path: String, name: String, kind: EntryKind) -> (r: Entry)
        ensures
            r.path@ == path@,
            r.name@ == name@,
            r.kind == kind,
    {
        Entry { path, name, kind }
    }

    pub open spec fn is_dir_spec(self) -> bool {
        self.kind == EntryKind::Directory
    }

    pub fn is_dir(&self) -> (r: bool)
        ensures
            r == self.is_dir_spec(),
    {
        self.kind == EntryKind::Directory
    }

    /// A copy equal to the original.
    pub fn duplicate(&self) -> (r: Entry)
        ensures
            r == *self,
    {
        Entry { path: self.path.clone(), name: self.name.clone(), kind: self.kind }
    }

    /// Whether this entry's path equals `path`, character for character.
    pub fn has_path(&self, path: &String) -> (r: bool)
        ensures
            r == (self.path@ == path@),
    {
        self.path == *path
    }
}

} // verus!
