//! The error of the storage layer.

use vstd::prelude::*;

verus! {

/// The I/O error of the key-value backend, carried through as an opaque value.
#[verifier::external_type_specification]
#[verifier::external_body]
pub struct ExIoError(std::io::Error);

/// A failure of the key-value backend or of a trie over it, with its text.
#[derive(Debug)]
pub struct DatabaseError {
    pub message: String,
}

pub type Result<T> = std::result::Result<T, DatabaseError>;

/// Formats an I/O error with `Debug`, through `format!`. Nothing is claimed of the text.
#[verifier::external_body]
pub(crate) fn io_error_text(cause: &std::io::Error) -> String {
    format!("{:?}", cause)
}

impl DatabaseError {
    /// An error with the given text.
    pub fn new(message: String) -> (e: DatabaseError)
        ensures
            e.message == message,
    {
        DatabaseError { message }
    }

    /// An error that reports a failure of the backend: [`DatabaseError::new`]
    /// of the text that the backend's error is formatted to.
    pub fn from_io(cause: &std::io::Error) -> DatabaseError {
        DatabaseError::new(io_error_text(cause))
    }
}

} // verus!
