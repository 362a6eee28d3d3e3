//! The error of the block engine.

use crate::database::error::DatabaseError;
use vstd::prelude::*;

verus! {

/// A failure of the block engine, with its text.
#[derive(Debug)]
pub struct BlockchainError {
    pub message: String,
}

pub type Result<T> = std::result::Result<T, BlockchainError>;

impl BlockchainError {
    /// An error with the given text.
    pub fn new(message: String) -> (e: BlockchainError)
        ensures
            e.message == message,
    {
        BlockchainError { message }
    }

    /// An error that reports a failure of the store, with the same text.
    pub fn from_database(cause: DatabaseError) -> (e: BlockchainError)
        ensures
            e.message == cause.message,
    {
        BlockchainError { message: cause.message }
    }
}

} // verus!
