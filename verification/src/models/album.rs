//! Albums: named pointers to a directory path.

use vstd::prelude::*;
use crate::models::thing::RecordId;

verus! {

/// An album is a pointer to a directory.
#[derive(Debug, PartialEq, Eq)]
pub struct Album {
    pub label: String,
    pub path: String,
    /// The user the album belongs to; filled in by the service on creation.
    pub owner: Option<RecordId>,
    /// The album's record id, where the client names an existing album.
    pub id: Option<RecordId>,
}

} // verus!
