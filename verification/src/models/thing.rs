//! Record ids: a table name and a key within the table.

use vstd::prelude::*;

verus! {

/// The key of a record within its table.
#[derive(Debug, PartialEq, Eq)]
pub enum RecordKey {
    /// A numeric key, as the database generates for `table:1`.
    Number(i64),
    /// A textual key, as in `table:abc`.
    Text(String),
    /// A key of another kind (an array, an object, or one the database is to
    /// generate), kept as it was written, as in `table:[1, 2]`.
    Other(String),
}

/// A record id, `table:key`.
#[derive(Debug, PartialEq, Eq)]
pub struct RecordId {
    pub table: String,
    pub key: RecordKey,
}

impl RecordKey {
    /// A copy of this key.
    pub fn duplicate(&self) -> (r: RecordKey)
        ensures
            r == *self,
    {
        match self {
            RecordKey::Number(n) => RecordKey::Number(*n),
            RecordKey::Text(s) => RecordKey::Text(s.clone()),
            RecordKey::Other(s) => RecordKey::Other(s.clone()),
        }
    }
}

impl RecordId {
    /// A copy of this id.
    pub fn duplicate(&self) -> (r: RecordId)
        ensures
            r == *self,
    {
        RecordId { table: self.table.clone(), key: self.key.duplicate() }
    }
}

/// A copy of an optional record id.
pub fn duplicate_option(id: &Option<RecordId>) -> (r: Option<RecordId>)
    ensures
        r == *id,
{
    match id {
        Some(x) => Some(x.duplicate()),
        None => None,
    }
}

} // verus!
