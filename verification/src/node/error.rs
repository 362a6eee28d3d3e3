//! The error of the node state machine.

use vstd::prelude::*;

verus! {

/// A failure of the node state machine, with its text.
#[derive(Debug)]
pub struct NodeError {
    pub message: String,
}

pub type Result<T> = std::result::Result<T, NodeError>;

impl NodeError {
    /// An error with the given text.
    pub fn new(message: String) -> (e: NodeError)
        ensures
            e.message == message,
    {
        NodeError { message }
    }
}

} // verus!
