//! Finding the record id of an album or a directory: what is checked before the
//! database is asked, and how its answer is read.

use vstd::prelude::*;
use crate::models::directory::Directory;
use crate::models::thing::RecordId;

verus! {

/// Why an id could not be found. The database reports this case as its
/// "ignored" error.
#[derive(Debug, PartialEq, Eq)]
pub enum IdLookupError {
    Ignored,
}

/// The database lookup for a directory's id: the directory with this name
/// under this parent, in this album.
#[derive(Debug, PartialEq, Eq)]
pub struct DirectoryLookup {
    pub name: String,
    pub parent: RecordId,
    pub album: RecordId,
}

/// The id of an album, read from the row that the lookup by path returned:
/// the id when a row was found, the "ignored" error when none was.
pub fn get_album_id(found: Option<String>) -> (r: Result<String, IdLookupError>)
    ensures
        match found {
            Some(s) => r == Ok::<String, IdLookupError>(s),
            None => r == Err::<String, IdLookupError>(IdLookupError::Ignored),
        },
{
    match found {
        Some(s) => Ok(s),
        None => Err(IdLookupError::Ignored),
    }
}

/// The lookup that finds a directory's id. A directory without an album, or
/// without a parent, cannot be looked up: the "ignored" error. The row that the
/// lookup returns is read with [`get_album_id`].
pub fn get_directory_id(dir: Directory) -> (r: Result<DirectoryLookup, IdLookupError>)
    ensures
        match (dir.album, dir.parent) {
            (Some(album), Some(parent)) => r == Ok::<DirectoryLookup, IdLookupError>(
                DirectoryLookup { name: dir.name, parent, album },
            ),
            _ => r == Err::<DirectoryLookup, IdLookupError>(IdLookupError::Ignored),
        },
{
    let album = match dir.album {
        Some(val) => val,
        None => return Err(IdLookupError::Ignored),
    };
    let parent = match dir.parent {
        Some(val) => val,
        None => return Err(IdLookupError::Ignored),
    };
    Ok(DirectoryLookup { name: dir.name, parent, album })
}

} // verus!
