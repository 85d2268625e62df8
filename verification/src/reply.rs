//! What the service answers a request with: a status and a body.

use vstd::prelude::*;
use crate::models::album::Album;
use crate::models::directory::{DirectoryReturn, DirectoryWrapper};
use crate::models::photo::Photo;

verus! {

/// The body of an answer.
#[derive(Debug, PartialEq, Eq)]
pub enum Body {
    /// Plain text: an id, an error message or an acknowledgement.
    Text(String),
    /// A session token, sent as a JSON string.
    TokenJson(String),
    /// A list of albums, sent as JSON.
    Albums(Vec<Album>),
    /// A list of photos, sent as JSON.
    Photos(Vec<Photo>),
    /// One directory, sent as JSON.
    Directory(DirectoryWrapper),
    /// The content of a directory, sent as JSON.
    Listing(DirectoryReturn),
}

/// An answer: the HTTP status code and the body.
#[derive(Debug, PartialEq, Eq)]
pub struct Reply {
    pub status: u16,
    pub body: Body,
}

} // verus!
