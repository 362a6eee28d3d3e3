//! The initialisation of a verifier: the one way to the genesis block.
//!
//! The initialisation goes through its steps one by one. Each step ends
//! with something to be done outside the state machine: a request to
//! another state machine, a look at the keeper set, a signature, an encoding.
//! What came of it is handed to the next step. A step that fails ends the
//! initialisation, with its own message.

use crate::blockchain::db::{ActivationOperation, NeedSignData, NodeActivation};
use crate::database::data_types::NodeData;
use crate::message::{LocalMessage, Message};
use vstd::prelude::*;

verus! {

/// Where the initialisation stands.
#[derive(Debug, Clone, Copy, PartialEq, Eq, Structural)]
pub enum InitState {
    /// Not running.
    Idle,
    /// Asked the block engine for the current block.
    AwaitBlock,
    /// Asked whether the node is a keeper.
    AwaitKeepers,
    /// Asked for the signature over the activation.
    AwaitSignature,
    /// Asked for the encodings of the node and of its signed activation.
    AwaitEncoded,
    /// Asked the block engine to record the activation.
    AwaitSaved,
    /// Asked the task state machine for the genesis tasks.
    AwaitTaskInit,
    /// Asked the block engine to start its cadence.
    AwaitTick,
}

/// The state machine that a request of the initialisation goes to.
#[derive(Debug, Clone, Copy, PartialEq, Eq, Structural)]
pub enum InitTarget {
    Blockchain,
    Task,
}

/// What the keeper set says of the node.
#[derive(Debug)]
pub enum KeeperCheck {
    /// The node has no key of the kind that a principal is derived from.
    NoKey,
    /// The keeper set could not be had; the text says why.
    Failed(String),
    /// The node is not in the keeper set.
    NotKeeper,
    /// The node is in the keeper set.
    Keeper,
}

/// What came of the last step.
#[derive(Debug)]
pub enum InitEvent {
    /// The initialisation was asked for.
    Start,
    /// The answer to the request of the last step, if there was one.
    Reply(Option<Message>),
    /// What the keeper set says.
    Keepers(KeeperCheck),
    /// The signature over the activation, if it could be made.
    Signature(Option<Vec<u8>>),
    /// The encodings of the node and of its signed activation.
    Encoded(Vec<u8>, Vec<u8>),
}

/// What is to be done next.
#[derive(Debug)]
pub enum InitAction {
    /// Send the request to the state machine, and hand the answer back.
    Call(InitTarget, LocalMessage),
    /// Look the node up in the keeper set.
    AskKeepers,
    /// Sign the encoding of the activation.
    Sign(NodeActivation),
    /// Encode the node and its signed activation.
    Encode(NodeData, NeedSignData<NodeActivation>),
    /// The initialisation is done.
    Done,
    /// The initialisation failed; the text says why.
    Fail(String),
}

/// Whether `reply` is the acknowledgement, with `true`, that `state` waits for.
pub open spec fn acknowledged(state: InitState, reply: Option<Message>) -> bool {
    match (state, reply) {
        (
            InitState::AwaitSaved,
            Some(Message::LocalMessage(LocalMessage::AckBlockSaveNodeActivation(true))),
        ) => true,
        (
            InitState::AwaitTaskInit,
            Some(Message::LocalMessage(LocalMessage::AckTaskInitGenesis(true))),
        ) => true,
        (
            InitState::AwaitTick,
            Some(Message::LocalMessage(LocalMessage::AckBlockStartTick(true))),
        ) => true,
        _ => false,
    }
}

/// Whether `reply` is the acknowledgement, with `true`, that `state` waits for.
pub fn is_acknowledged(state: InitState, reply: &Option<Message>) -> (yes: bool)
    ensures
        yes == acknowledged(state, *reply),
{
    match (state, reply) {
        (
            InitState::AwaitSaved,
            Some(Message::LocalMessage(LocalMessage::AckBlockSaveNodeActivation(true))),
        ) => true,
        (
            InitState::AwaitTaskInit,
            Some(Message::LocalMessage(LocalMessage::AckTaskInitGenesis(true))),
        ) => true,
        (
            InitState::AwaitTick,
            Some(Message::LocalMessage(LocalMessage::AckBlockStartTick(true))),
        ) => true,
        _ => false,
    }
}

/// The index of the current block that `reply` tells, if it tells one.
pub open spec fn block_index(reply: Option<Message>) -> Option<u64> {
    match reply {
        Some(Message::LocalMessage(LocalMessage::AckBlockCurrent(block))) => Some(
            block.header.index,
        ),
        _ => None,
    }
}

/// The index of the current block that `reply` tells, if it tells one.
pub fn read_block_index(reply: &Option<Message>) -> (index: Option<u64>)
    ensures
        index == block_index(*reply),
{
    match reply {
        Some(Message::LocalMessage(LocalMessage::AckBlockCurrent(block))) => Some(
            block.header.index,
        ),
        _ => None,
    }
}

/// The activation of the node itself.
pub fn self_activation(peer_id: &String, account: &Vec<u8>, pub_key: &Vec<u8>) -> (activation:
    NodeActivation)
    ensures
        activation.operation == ActivationOperation::Activate,
        activation.peer_id@ == peer_id@,
        activation.account@ == account@,
        activation.pub_key@ == pub_key@,
{
    NodeActivation {
        operation: ActivationOperation::Activate,
        peer_id: peer_id.clone(),
        account: crate::blockchain::db::copy_bytes(account),
        pub_key: crate::blockchain::db::copy_bytes(pub_key),
    }
}

} // verus!
