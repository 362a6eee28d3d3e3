//! The error that the node ends with.

use crate::blockchain::error::BlockchainError;
use crate::database::error::DatabaseError;
use crate::key_pair::KeyPairError;
use crate::node::error::NodeError;
use crate::task::error::TaskError;
use vstd::prelude::*;
use vstd::string::StringExecFns;

verus! {

/// Which part of the node failed.
#[derive(Debug, Clone, Copy, PartialEq, Eq, Structural)]
pub enum ErrorCode {
    BindError,
    DatabaseError,
    NodeError,
    BlockChainError,
    KeyError,
    TaskError,
}

impl ErrorCode {
    /// The number of the code: 10000 and up, in the order of the variants.
    pub open spec fn number(self) -> u32 {
        match self {
            ErrorCode::BindError => 10000,
            ErrorCode::DatabaseError => 10001,
            ErrorCode::NodeError => 10002,
            ErrorCode::BlockChainError => 10003,
            ErrorCode::KeyError => 10004,
            ErrorCode::TaskError => 10005,
        }
    }

    /// The number of the code in decimal digits.
    pub open spec fn digits(self) -> Seq<char> {
        match self {
            ErrorCode::BindError => "10000"@,
            ErrorCode::DatabaseError => "10001"@,
            ErrorCode::NodeError => "10002"@,
            ErrorCode::BlockChainError => "10003"@,
            ErrorCode::KeyError => "10004"@,
            ErrorCode::TaskError => "10005"@,
        }
    }

    /// The number of the code.
    pub fn code(&self) -> (n: u32)
        ensures
            n == self.number(),
    {
        match self {
            ErrorCode::BindError => 10000,
            ErrorCode::DatabaseError => 10001,
            ErrorCode::NodeError => 10002,
            ErrorCode::BlockChainError => 10003,
            ErrorCode::KeyError => 10004,
            ErrorCode::TaskError => 10005,
        }
    }
}

/// A failure of the node: which part failed, and the text of its error.
#[derive(Debug)]
pub struct WError {
    pub code: ErrorCode,
    pub message: String,
}

/// The text of an error of the kind `kind` with the message `message`.
pub open spec fn error_text(kind: Seq<char>, message: Seq<char>) -> Seq<char> {
    kind + ": "@ + message
}

/// The text of an error of the kind `kind` with the message `message`.
fn describe(kind: &str, message: &String) -> (text: String)
    ensures
        text@ == error_text(kind@, message@),
{
    let mut text = kind.to_owned();
    text.append(": ");
    text.append(message.as_str());
    text
}

impl WError {
    pub fn from_database(cause: DatabaseError) -> (e: WError)
        ensures
            e.code == ErrorCode::DatabaseError,
            e.message@ == error_text("DatabaseError"@, cause.message@),
    {
        WError { code: ErrorCode::DatabaseError, message: describe("DatabaseError", &cause.message) }
    }

    pub fn from_blockchain(cause: BlockchainError) -> (e: WError)
        ensures
            e.code == ErrorCode::BlockChainError,
            e.message@ == error_text("BlockchainError"@, cause.message@),
    {
        WError {
            code: ErrorCode::BlockChainError,
            message: describe("BlockchainError", &cause.message),
        }
    }

    pub fn from_key_pair(cause: KeyPairError) -> (e: WError)
        ensures
            e.code == ErrorCode::KeyError,
            e.message@ == error_text("KeyPairError"@, cause.message@),
    {
        WError { code: ErrorCode::KeyError, message: describe("KeyPairError", &cause.message) }
    }

    pub fn from_node(cause: NodeError) -> (e: WError)
        ensures
            e.code == ErrorCode::NodeError,
            e.message@ == error_text("NodeError"@, cause.message@),
    {
        WError { code: ErrorCode::NodeError, message: describe("NodeError", &cause.message) }
    }

    pub fn from_task(cause: TaskError) -> (e: WError)
        ensures
            e.code == ErrorCode::TaskError,
            e.message@ == error_text("TaskError"@, cause.message@),
    {
        WError { code: ErrorCode::TaskError, message: describe("TaskError", &cause.message) }
    }

    /// The error as one line: the digits of its code, a space, its text.
    pub open spec fn line(&self) -> Seq<char> {
        self.code.digits() + " "@ + self.message@
    }

    /// The error as one line: the number of its code, then its text.
    pub fn to_string(&self) -> (text: String)
        ensures
            text@ == self.line(),
    {
        let mut text = match self.code {
            ErrorCode::BindError => "10000".to_owned(),
            ErrorCode::DatabaseError => "10001".to_owned(),
            ErrorCode::NodeError => "10002".to_owned(),
            ErrorCode::BlockChainError => "10003".to_owned(),
            ErrorCode::KeyError => "10004".to_owned(),
            ErrorCode::TaskError => "10005".to_owned(),
        };
        text.append(" ");
        text.append(self.message.as_str());
        text
    }
}

} // verus!
