//! suisai: the request logic of a tag-based photo manager, verified with Verus.
//!
//! The library holds what the web service decides: how a bearer token is taken
//! apart, how a record id is read from its text form, which database work each
//! request handler asks for and in what order, and which status and body each
//! outcome is answered with. The database and the HTTP server are driven by the
//! program around the library.

pub mod text;
pub mod handler;
pub mod models;
pub mod reply;
pub mod status;
pub mod utils;
pub mod endpoints;
pub mod controllers;
