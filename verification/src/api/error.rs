//! The error of the admin interface.

use vstd::prelude::*;

verus! {

/// A failure of the admin interface, with its text.
#[derive(Debug)]
pub struct ApiError {
    pub message: String,
}

pub type Result<T> = std::result::Result<T, ApiError>;

impl ApiError {
    /// An error with the given text.
    pub fn new(message: String) -> (e: ApiError)
        ensures
            e.message == message,
    {
        ApiError { message }
    }
}

} // verus!
