//! The head bar: shows the path of the directory currently being browsed,
//! or nothing when the working directory could not be determined.

use vstd::prelude::*;

verus! {

pub struct Head {
    pub path: Option<String>,
}

impl Head {
    pub fn new() -> (r: Head)
        ensures
            r.path is None,
    {
        Head { path: None }
    }

    pub fn set_path(&mut self, path: Option<String>)
        ensures
            final(self).path == path,
    {
        self.path = path;
    }

    pub fn path(&self) -> (r: &Option<String>)
        ensures
            *r == self.path,
    {
        &self.path
    }
}

} // verus!
