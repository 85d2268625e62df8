//! The HTTP status codes that the service answers with.

use vstd::prelude::*;

verus! {

/// 200: the request succeeded.
pub const OK: u16 = 200;

/// 201: an account was created or changed.
pub const CREATED: u16 = 201;

/// 401: the credentials or the session token were refused.
pub const UNAUTHORIZED: u16 = 401;

/// 409: the record could not be created.
pub const CONFLICT: u16 = 409;

/// 500: a later step of the request failed.
pub const INTERNAL_SERVER_ERROR: u16 = 500;

} // verus!
