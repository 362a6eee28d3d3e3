//! The error of the task state machine.

use vstd::prelude::*;

verus! {

/// A failure of the task state machine, with its text.
#[derive(Debug)]
pub struct TaskError {
    pub message: String,
}

pub type Result<T> = std::result::Result<T, TaskError>;

impl TaskError {
    /// An error with the given text.
    pub fn new(message: String) -> (e: TaskError)
        ensures
            e.message == message,
    {
        TaskError { message }
    }
}

} // verus!
