//! The errors the service surfaces, and the status code and message each one
//! carries to a caller. The HTTP framing around them lives with the embedding
//! program; the mapping itself is decided here.

use vstd::prelude::*;

verus! {

/// A request's failure as the API reports it.
#[derive(Clone, Copy, Debug, PartialEq, Eq, Structural)]
pub enum ApiError {
    /// No valid API key accompanied the request.
    Unauthorized,
    /// The addressed record does not exist for this caller.
    NotFound,
    /// An internal fault, reported without detail.
    InternalError,
}

impl ApiError {
    /// The HTTP status this error is reported with.
    pub fn status_code(&self) -> (r: u16)
        ensures
            *self is Unauthorized ==> r == 401,
            *self is NotFound ==> r == 404,
            *self is InternalError ==> r == 500,
    {
        match self {
            ApiError::Unauthorized => 401,
            ApiError::NotFound => 404,
            ApiError::InternalError => 500,
        }
    }

    /// The message shown to the caller.
    pub fn message(&self) -> (r: String)
        ensures
            *self is Unauthorized ==> r@ == "Unauthorized"@,
            *self is NotFound ==> r@ == "Data Not found"@,
            *self is InternalError ==> r@ == "Internal Server error"@,
    {
        match self {
            ApiError::Unauthorized => String::from_str("Unauthorized"),
            ApiError::NotFound => String::from_str("Data Not found"),
            ApiError::InternalError => String::from_str("Internal Server error"),
        }
    }
}

} // verus!
