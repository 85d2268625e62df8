//! Helpers shared by the request handlers.

pub mod auth;
pub mod axum_error;
pub mod directory;
pub mod get_id;
