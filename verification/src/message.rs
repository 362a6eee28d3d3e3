//! The messages that the state machines exchange, and the queue that
//! carries them.
//!
//! Every state machine has a [`Waiter`]: a bounded queue of messages that
//! it serves in the order in which they were enqueued. A [`Caller`] names
//! the waiter that it writes to. A message that was sent with
//! [`Caller::call`] carries the number of a reply slot; what the serving
//! function returns for it goes to that slot.

use crate::blockchain::db::{Block, NeedSignData, NodeActivation, TaskOperation};
use crate::database::data_types::{NodeActiveStatus, TaskData};
use crate::database::keccak::Hash256;
use crate::network::NetworkMessage;
use vstd::prelude::*;

verus! {

/// Messages that a waiter holds at most.
pub const CHANNEL_CAPACITY: usize = 100;

#[derive(Debug)]
pub enum Message {
    NetworkMessage(NetworkMessage),
    LocalMessage(LocalMessage),
}

#[derive(Debug)]
pub enum LocalMessage {
    RequireTask(),
    RequireNodeList(),
    RequireNodeStart(String),
    AckNodeStart(bool, String),
    InvokeTask(),
    GetTaskList(),
    GetTaskListResponse(Vec<TaskData>),
    ReqKeeperInit(),
    AckKeeperInit(bool),
    ReqWorkerActive(),
    AckWorkerActive(bool),
    ReqWorkerActiveStatus(String),
    AckWorkerActiveStatus(NodeActiveStatus),
    ReqNodeDistributeTask(u64),
    ReqBlockSaveNodeActivation(NeedSignData<NodeActivation>, Hash256, Hash256, Hash256),
    AckBlockSaveNodeActivation(bool),
    ReqBlockSaveTaskOperation(Vec<TaskOperation>, Hash256, Hash256, Hash256),
    AckBlockSaveTaskOperation(bool),
    ReqBlockStartTick(),
    AckBlockStartTick(bool),
    ReqBlockCurrent(),
    AckBlockCurrent(Block),
    ReqBlockPack(),
    ReqTaskInitGenesis(),
    AckTaskInitGenesis(bool),
    BlockTick(),
}

/// A state machine that others can send to.
pub trait LocalMessageModule {
    /// The caller that reaches the state machine's own waiter.
    spec fn message_caller(&self) -> Caller;

    /// The caller to send to the state machine through.
    fn get_message_caller(&self) -> (caller: Caller)
        ensures
            caller == self.message_caller(),
    ;
}

pub type Result<T> = std::result::Result<T, MessageError>;

/// A message that could not be enqueued, with the reason.
#[derive(Debug, Default)]
pub struct MessageError {
    pub message: String,
}

/// A message in a queue, with the reply slot it was sent with, if any.
#[derive(Debug)]
pub struct InnerMessage {
    pub msg: Message,
    pub sender: Option<usize>,
}

/// A handle that writes into the queue of one waiter.
#[derive(Clone, Copy, Debug, PartialEq, Eq, Structural)]
pub struct Caller {
    remote_sender: usize,
}

impl Caller {
    /// The waiter that the handle writes to.
    pub closed spec fn target(&self) -> usize {
        self.remote_sender
    }

    /// The number of the waiter that the handle writes to.
    pub fn waiter_id(&self) -> (id: usize)
        ensures
            id == self.target(),
    {
        self.remote_sender
    }

    /// Whether `waiter` takes a message from this handle now: it is the
    /// waiter of the handle and its queue is not full.
    pub open spec fn accepted_by(&self, waiter: &Waiter) -> bool {
        self.target() == waiter.id() && waiter@.len() < CHANNEL_CAPACITY
    }

    /// Whether `waiter` takes a message from this handle now.
    pub fn accepts(&self, waiter: &Waiter) -> (yes: bool)
        ensures
            yes == self.accepted_by(waiter),
    {
        self.remote_sender == waiter.id && waiter.local_receiver.len() < CHANNEL_CAPACITY
    }

    /// Enqueues a request: `msg` with a fresh reply slot, whose number is
    /// returned. Fails, and changes nothing, where the queue is full,
    /// where `waiter` is not the waiter of this handle, and where the
    /// waiter has no slot left.
    pub fn call(&self, waiter: &mut Waiter, msg: Message) -> (res: Result<usize>)
        ensures
            final(waiter).id() == old(waiter).id(),
            self.accepted_by(old(waiter)) && old(waiter).slots() < usize::MAX ==> {
                &&& res == Ok::<usize, MessageError>(old(waiter).slots())
                &&& final(waiter)@ == old(waiter)@.push(
                    InnerMessage { msg, sender: Some(old(waiter).slots()) },
                )
                &&& final(waiter).slots() == old(waiter).slots() + 1
            },
            !(self.accepted_by(old(waiter)) && old(waiter).slots() < usize::MAX) ==> {
                &&& res is Err
                &&& *final(waiter) == *old(waiter)
            },
    {
        if self.remote_sender != waiter.id || waiter.local_receiver.len() >= CHANNEL_CAPACITY
            || waiter.replies == usize::MAX {
            return Err(MessageError { message: "send failed".to_owned() });
        }
        let slot = waiter.replies;
        waiter.replies = slot + 1;
        waiter.local_receiver.push(InnerMessage { msg, sender: Some(slot) });
        Ok(slot)
    }

    /// Enqueues a notification: `msg` without a reply slot. Fails, and
    /// changes nothing, where the queue is full and where `waiter` is not
    /// the waiter of this handle.
    pub fn notify(&self, waiter: &mut Waiter, msg: Message) -> (res: Result<()>)
        ensures
            final(waiter).id() == old(waiter).id(),
            final(waiter).slots() == old(waiter).slots(),
            self.accepted_by(old(waiter)) ==> {
                &&& res is Ok
                &&& final(waiter)@ == old(waiter)@.push(InnerMessage { msg, sender: None })
            },
            !self.accepted_by(old(waiter)) ==> {
                &&& res is Err
                &&& *final(waiter) == *old(waiter)
            },
    {
        if self.remote_sender != waiter.id || waiter.local_receiver.len() >= CHANNEL_CAPACITY {
            return Err(MessageError { message: "send failed".to_owned() });
        }
        waiter.local_receiver.push(InnerMessage { msg, sender: None });
        Ok(())
    }
}

/// The queue of one state machine.
pub struct Waiter {
    id: usize,
    local_receiver: Vec<InnerMessage>,
    replies: usize,
}

/// Where the answer to a served message goes: to the reply slot of the
/// message, where it has one and there is an answer.
pub open spec fn reply_of(slot: Option<usize>, answer: Option<Message>) -> Option<(usize, Message)> {
    match (slot, answer) {
        (Some(slot), Some(answer)) => Some((slot, answer)),
        _ => None,
    }
}

impl Waiter {
    /// The messages in the queue, the oldest first.
    pub closed spec fn view(&self) -> Seq<InnerMessage> {
        self.local_receiver@
    }

    /// The number of the waiter.
    pub closed spec fn id(&self) -> usize {
        self.id
    }

    /// The number of reply slots handed out so far.
    pub closed spec fn slots(&self) -> usize {
        self.replies
    }

    /// The waiter with number `id`, with an empty queue.
    pub fn new(id: usize) -> (waiter: Waiter)
        ensures
            waiter@ == Seq::<InnerMessage>::empty(),
            waiter.id() == id,
            waiter.slots() == 0,
    {
        Waiter { id, local_receiver: Vec::new(), replies: 0 }
    }

    /// A handle that writes into this queue.
    pub fn get_caller(&self) -> (caller: Caller)
        ensures
            caller.target() == self.id(),
    {
        Caller { remote_sender: self.id }
    }

    /// Takes the oldest message out of the queue.
    pub fn next(&mut self) -> (res: Option<InnerMessage>)
        ensures
            final(self).id() == old(self).id(),
            final(self).slots() == old(self).slots(),
            old(self)@.len() == 0 ==> res is None && final(self)@ == old(self)@,
            old(self)@.len() > 0 ==> res == Some(old(self)@[0]) && final(self)@ == old(self)@.skip(
                1,
            ),
    {
        if self.local_receiver.len() == 0 {
            return None;
        }
        let first = self.local_receiver.remove(0);
        assert(self.local_receiver@ =~= old(self)@.skip(1));
        Some(first)
    }

    /// Serves the oldest message: takes it out of the queue, applies
    /// `func` to it, and returns the answer with the reply slot it goes to.
    /// With an empty queue nothing happens.
    pub fn wait<F: FnOnce(Message) -> Option<Message>>(&mut self, func: F) -> (res: Option<
        (usize, Message),
    >)
        requires
            old(self)@.len() > 0 ==> func.requires((old(self)@[0].msg,)),
        ensures
            final(self).id() == old(self).id(),
            final(self).slots() == old(self).slots(),
            old(self)@.len() == 0 ==> res is None && final(self)@ == old(self)@,
            old(self)@.len() > 0 ==> {
                &&& final(self)@ == old(self)@.skip(1)
                &&& exists|answer: Option<Message>|
                    func.ensures((old(self)@[0].msg,), answer) && res == reply_of(
                        old(self)@[0].sender,
                        answer,
                    )
            },
    {
        let msg = match self.next() {
            Some(m) => m,
            None => {
                return None;
            },
        };
        let slot = msg.sender;
        let answer = func(msg.msg);
        assert(func.ensures((old(self)@[0].msg,), answer));
        let res = match (slot, answer) {
            (Some(slot), Some(answer)) => Some((slot, answer)),
            _ => None,
        };
        assert(res == reply_of(old(self)@[0].sender, answer));
        res
    }
}

/// Messages are served in the order in which they were enqueued: of two
/// messages enqueued one after the other, the first stands in the queue
/// right before the second, and leaves it first.
pub proof fn lemma_fifo(queue: Seq<InnerMessage>, first: InnerMessage, second: InnerMessage)
    ensures
        ({
            let after = queue.push(first).push(second);
            &&& after.skip(queue.len() as int)[0] == first
            &&& after.skip(queue.len() as int).skip(1)[0] == second
            &&& forall|i: int| 0 <= i < queue.len() ==> after[i] == queue[i]
        }),
{
}

} // verus!
