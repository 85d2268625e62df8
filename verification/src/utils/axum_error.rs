//! Errors that carry the HTTP status they are answered with.

use vstd::prelude::*;
use crate::reply::{Body, Reply};
use crate::status::INTERNAL_SERVER_ERROR;

verus! {

/// An error message together with the HTTP status code it is answered with.
#[derive(Debug, PartialEq, Eq)]
pub struct AxumError(pub String, pub u16);

/// Turning the error of a result into an [`AxumError`].
pub trait IntoAxumError<T, E> {
    /// The result, with its error answered with `err_code`.
    fn or_error(self, err_code: u16) -> Result<T, AxumError>;

    /// The result, with its error answered with status 500.
    fn or_500(self) -> Result<T, AxumError>;
}

impl<T> IntoAxumError<T, String> for Result<T, String> {
    fn or_error(self, err_code: u16) -> (r: Result<T, AxumError>)
        ensures
            match self {
                Ok(v) => r == Ok::<T, AxumError>(v),
                Err(e) => r == Err::<T, AxumError>(AxumError(e, err_code)),
            },
    {
        match self {
            Ok(val) => Ok(val),
            Err(err) => Err(AxumError(err, err_code)),
        }
    }

    fn or_500(self) -> (r: Result<T, AxumError>)
        ensures
            match self {
                Ok(v) => r == Ok::<T, AxumError>(v),
                Err(e) => r == Err::<T, AxumError>(AxumError(e, INTERNAL_SERVER_ERROR)),
            },
    {
        self.or_error(INTERNAL_SERVER_ERROR)
    }
}

impl AxumError {
    /// The answer to this error: its status, with the message as the body.
    pub fn into_response(self) -> (r: Reply)
        ensures
            r == (Reply { status: self.1, body: Body::Text(self.0) }),
    {
        Reply { status: self.1, body: Body::Text(self.0) }
    }
}

/// An error that reaches a handler without a status of its own is answered
/// with status 500.
impl From<String> for AxumError {
    fn from(err: String) -> (r: Self) {
        AxumError(err, INTERNAL_SERVER_ERROR)
    }
}

impl vstd::std_specs::convert::FromSpecImpl<String> for AxumError {
    open spec fn obeys_from_spec() -> bool {
        true
    }

    open spec fn from_spec(v: String) -> Self {
        AxumError(v, INTERNAL_SERVER_ERROR)
    }
}

} // verus!
