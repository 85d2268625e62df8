//! Directories and the listing of a directory's content.

use vstd::prelude::*;
use crate::models::file::FileWrapper;
use crate::models::thing::{duplicate_option, RecordId};

verus! {

/// A directory: its name, the album it belongs to and its parent directory.
#[derive(Debug, PartialEq, Eq)]
pub struct Directory {
    pub name: String,
    pub album: Option<RecordId>,
    pub parent: Option<RecordId>,
}

/// A stored directory together with its record id.
#[derive(Debug, PartialEq, Eq)]
pub struct DirectoryWrapper {
    pub directory: Directory,
    pub id: RecordId,
}

/// The content of a directory: its subdirectories and its files.
#[derive(Debug, PartialEq, Eq)]
pub struct DirectoryReturn {
    pub directories: Vec<DirectoryWrapper>,
    pub files: Vec<FileWrapper>,
}

impl Directory {
    /// A copy of this directory.
    pub fn duplicate(&self) -> (r: Directory)
        ensures
            r == *self,
    {
        Directory {
            name: self.name.clone(),
            album: duplicate_option(&self.album),
            parent: duplicate_option(&self.parent),
        }
    }
}

} // verus!
