//! The record of a temporary directory.

use vstd::prelude::*;

verus! {

/// A temporary directory, known by its path.
///
/// The value only remembers where the directory is.  Creating and removing
/// it on disk is the business of the program that holds the value.
#[derive(Debug)]
pub struct TempDir {
    path: String,
}

impl View for TempDir {
    type V = Seq<char>;

    /// The path of the directory.
    closed spec fn view(&self) -> Seq<char> {
        self.path@
    }
}

impl TempDir {
    /// Records the directory that was created at `path`.
    pub fn at(path: String) -> (dir: TempDir)
        ensures
            dir@ == path@,
    {
        TempDir { path }
    }

    /// Returns the path to the tempdir.
    pub fn as_path(&self) -> (path: &str)
        ensures
            path@ == self@,
    {
        self.path.as_str()
    }
}

} // verus!
