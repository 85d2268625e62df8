//! Credentials and the claims that a session token carries.

use vstd::prelude::*;

verus! {

/// The credentials of an account, as given to sign-up, sign-in and updates.
/// An empty field in an update means that field is left as it is.
#[derive(Debug, PartialEq, Eq)]
pub struct User {
    pub email: String,
    pub password: String,
}

/// The claims of a session token that the service needs: the namespace and
/// database the session belongs to, and the record id of the user, in its text
/// form `table:key`.
#[derive(Debug, PartialEq, Eq)]
pub struct JwtPayload {
    pub ns: String,
    pub db: String,
    pub id: String,
}

} // verus!
