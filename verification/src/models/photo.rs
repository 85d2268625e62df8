//! Photos and their tags.

use vstd::prelude::*;
use crate::models::thing::RecordId;

verus! {

/// A photo with its label, path, date and tags.
#[derive(Debug, PartialEq, Eq)]
pub struct Photo {
    pub label: String,
    pub path: String,
    pub date: String,
    pub tags: Vec<String>,
    pub id: RecordId,
}

} // verus!
