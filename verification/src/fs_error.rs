//! The two kinds of file-system failure the browser surfaces: an error
//! while reading a specific entry's attributes, and an error while listing
//! a directory or changing into one. Either is shown as a modal overlay and
//! dismissed by the next input event; dismissing a metadata error also
//! clears the directory selection, since the entry it concerned is assumed
//! stale.

use vstd::prelude::*;

verus! {

pub enum FsError {
    /// Failure reading an entry's attributes, with its message.
    Metadata(String),
    /// Failure listing a directory or changing into one, with its message.
    Directory(String),
}

impl FsError {
    pub open spec fn is_metadata(self) -> bool {
        self matches FsError::Metadata(_)
    }

    pub open spec fn spec_message(self) -> Seq<char> {
        match self {
            FsError::Metadata(m) => m@,
            FsError::Directory(m) => m@,
        }
    }

    /// The message shown in the error overlay.
    pub fn message(&self) -> (r: String)
        ensures
            r@ == self.spec_message(),
    {
        match self {
            FsError::Metadata(m) => m.clone(),
            FsError::Directory(m) => m.clone(),
        }
    }
}

} // verus!
