//! The records that the service stores and exchanges.

pub mod album;
pub mod auth;
pub mod directory;
pub mod file;
pub mod photo;
pub mod thing;
