//! Files: entries of a directory with a thumbnail.

use vstd::prelude::*;
use crate::models::directory::Directory;
use crate::models::thing::RecordId;

verus! {

/// A file: where it stands (as for a directory) and its thumbnail.
#[derive(Debug, PartialEq, Eq)]
pub struct File {
    pub directory: Directory,
    pub thumbnail: String,
}

/// A stored file together with its record id.
#[derive(Debug, PartialEq, Eq)]
pub struct FileWrapper {
    pub file: File,
    pub id: RecordId,
}

impl File {
    /// A copy of this file.
    pub fn duplicate(&self) -> (r: File)
        ensures
            r == *self,
    {
        File { directory: self.directory.duplicate(), thumbnail: self.thumbnail.clone() }
    }
}

} // verus!
