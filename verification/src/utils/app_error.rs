//! An error as the answer to a request.

use crate::text::concat;
use vstd::prelude::*;

verus! {

/// The status of the answer that an error becomes: an internal server
/// error.
pub const INTERNAL_SERVER_ERROR: u16 = 500;

/// An error that ended the handling of a request, by its message.
pub struct AppError(pub String);

impl From<String> for AppError {
    /// The error with the message `message`.
    fn from(message: String) -> (error: AppError) {
        AppError(message)
    }
}

impl vstd::std_specs::convert::FromSpecImpl<String> for AppError {
    open spec fn obeys_from_spec() -> bool {
        true
    }

    open spec fn from_spec(message: String) -> AppError {
        AppError(message)
    }
}

impl AppError {
    /// The answer that the error becomes: the status of an internal server
    /// error, and a body that names the error.
    pub fn into_response(self) -> (response: (u16, String))
        ensures
            response.0 == INTERNAL_SERVER_ERROR,
            response.1@ == "Something went wrong: "@ + self.0@,
    {
        (INTERNAL_SERVER_ERROR, concat("Something went wrong: ", self.0.as_str()))
    }
}

} // verus!
