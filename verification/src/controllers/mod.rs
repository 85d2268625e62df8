//! The request handlers that answer each failure where it happens, ending the
//! session first where they say so.
//!
//! Where these handlers start ending the session without awaiting it, the
//! session is not ended at all; their stages leave that step out.

pub mod album;
pub mod auth;
pub mod directory;
pub mod file;
