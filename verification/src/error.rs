//! The error type of the library.
use vstd::prelude::*;

verus! {

/// What can go wrong in talking to the API.
#[derive(Debug, Clone, PartialEq)]
pub enum ApiError {
    /// The server answered with an unexpected status and gave this detail.
    ResponseError(String),
    /// Anything else, with the message that describes it.
    UnexpectedError(String),
}

impl ApiError {
    /// The text this error is shown with: the detail, or the message.
    pub fn message(&self) -> (r: String)
        ensures
            r@ == match self {
                ApiError::ResponseError(d) => d@,
                ApiError::UnexpectedError(m) => m@,
            },
    {
        match self {
            ApiError::ResponseError(d) => d.clone(),
            ApiError::UnexpectedError(m) => m.clone(),
        }
    }
}

} // verus!
