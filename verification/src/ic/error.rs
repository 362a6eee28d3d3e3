//! The error of the calls to the canisters.

use vstd::prelude::*;

verus! {

/// A failure of a call to a canister, with its text.
#[derive(Debug)]
pub struct ICError {
    pub message: String,
}

pub type Result<T> = std::result::Result<T, ICError>;

impl ICError {
    /// An error with the given text.
    pub fn new(message: String) -> (e: ICError)
        ensures
            e.message == message,
    {
        ICError { message }
    }
}

} // verus!
