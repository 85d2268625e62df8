//! The request handlers that answer every failure through [`crate::utils::axum_error::AxumError`].

pub mod album;
pub mod auth;
pub mod photo;
