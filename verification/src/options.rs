//! Start-up options: the directory to open first, when one was given on the
//! command line. Argument parsing itself happens outside the library; the
//! parsed value is handed over as a plain path string.

use vstd::prelude::*;

verus! {

pub struct Options {
    pub init_path: Option<String>,
}

impl Options {
    pub fn new(init_path: Option<String>) -> (r: Options)
        ensures
            r.init_path == init_path,
    {
        Options { init_path }
    }
}

} // verus!
