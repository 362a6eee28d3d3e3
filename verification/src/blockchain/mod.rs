//! The block engine: the block that is being filled, and its packing.
//!
//! The engine holds the current block. The node and task state machines
//! record their operations in it, with the roots of their tries; packing
//! records the block under its hash, and starts the next one.

use self::db::{
    activations_view, copy_operations, zero_hash, Block, BlockchainDB, Header, NeedSignData,
    NodeActivation, Reward, TaskOperation, KEY_LAST_HASH,
};
use self::error::Result;
use crate::database::db::{
    lookup, same_hash, Backend, COL_BLOCK_BODIES, COL_BLOCK_HEADERS, COL_EXTRA,
};
use crate::database::trie::NodeStore;
use crate::database::keccak::{keccak256, Hash256};
use crate::message::{Caller, LocalMessage, LocalMessageModule, Message};
use crate::network::topics::{TopicMessage, Topics};
use crate::network::NetworkModule;
use vstd::prelude::*;

pub mod db;
pub mod error;

verus! {

/// Milliseconds between two packs.
pub const TICK_MILLIS: u64 = 1000;

/// What the engine asks of its surroundings after a message.
#[derive(Debug, Clone, Copy, PartialEq, Eq, Structural)]
pub enum BlockEffect {
    /// Nothing.
    Nothing,
    /// Start the cadence that sends `ReqBlockPack` every [`TICK_MILLIS`].
    StartTick,
    /// Encode the current block, and call [`BlockchainModule::pack_block`].
    Pack,
}

/// How a pack ended.
#[derive(Debug)]
pub struct PackOutcome {
    /// The hash of the block.
    pub hash: Hash256,
    /// Whether the block was recorded as packed.
    pub packed: bool,
    /// The notification to send: the index of the next block, to the node
    /// state machine where one is wired.
    pub notify: Option<(Caller, LocalMessage)>,
    /// The tick to send to the task state machine where one is wired: a
    /// block was packed.
    pub tick: Option<(Caller, LocalMessage)>,
}

pub struct BlockchainModule {
    db: BlockchainDB,
    message_waiter: Caller,
    network_caller: Caller,
    node_caller: Option<Caller>,
    task_caller: Option<Caller>,
    message_subscribe: Vec<(Topics, Caller)>,
    current_block: Block,
    ticking: bool,
}

/// The previous hash of a block that links to a chain whose latest
/// pointer is `latest`: the pointer, or 32 zero bytes where there is none.
pub open spec fn link_of(latest: Option<Seq<u8>>) -> Seq<u8> {
    match latest {
        Some(hash) => hash,
        None => zero_hash(),
    }
}

/// The previous hash of a block that links to a chain whose latest
/// pointer is `latest`.
pub fn link(latest: Option<Hash256>) -> (hash: Hash256)
    ensures
        hash@ == link_of(self::db::hash_view(latest)),
{
    match latest {
        Some(hash) => hash,
        None => {
            let zero: Hash256 = [0u8; 32];
            assert(zero@ =~= zero_hash());
            zero
        },
    }
}

/// The first block holds the activation of the node that made it: a block
/// of index 0 that nothing was recorded in but a signed activation has
/// index 0 and holds that activation, and no other.
pub proof fn lemma_genesis_block(
    before: Block,
    after: Block,
    signed: NeedSignData<NodeActivation>,
    node_root: Hash256,
    node_activation_root: Hash256,
    current_activation_root: Hash256,
    previous_hash: Seq<u8>,
)
    requires
        before@ == Block::blank(0, previous_hash),
        BlockchainModule::with_activation(
            before,
            after,
            signed,
            node_root,
            node_activation_root,
            current_activation_root,
        ),
    ensures
        after.header.index == 0,
        after@.header.previous_hash == previous_hash,
        after@.body.node_activation == seq![signed@],
        after@.body.tasks.len() == 0,
{
    assert(before@.body.node_activation.len() == 0);
    assert(after@.body.node_activation =~= seq![signed@]);
    assert(after@.body.tasks =~= before@.body.tasks);
}

/// Whether a block with the given previous hash links to a chain whose
/// latest pointer is `latest`.
pub fn links_to(previous_hash: &Hash256, latest: Option<Hash256>) -> (res: bool)
    ensures
        res == (previous_hash@ == link_of(self::db::hash_view(latest))),
{
    same_hash(previous_hash, &link(latest))
}

impl BlockchainModule {
    /// The block that is being filled.
    pub closed spec fn current(&self) -> Block {
        self.current_block
    }

    /// The pointers of the chain.
    pub closed spec fn chain(&self) -> BlockchainDB {
        self.db
    }

    /// Whether the cadence was started.
    pub closed spec fn ticking(&self) -> bool {
        self.ticking
    }

    /// The caller of the node state machine, where one is wired.
    pub closed spec fn node(&self) -> Option<Caller> {
        self.node_caller
    }

    /// The caller of the task state machine, where one is wired.
    pub closed spec fn task(&self) -> Option<Caller> {
        self.task_caller
    }

    /// Wires the task state machine: it is told of every block that was packed.
    pub fn set_task_caller(&mut self, caller: Caller)
        ensures
            final(self).task() == Some(caller),
            final(self).node() == old(self).node(),
            final(self).current() == old(self).current(),
            final(self).chain() == old(self).chain(),
            final(self).ticking() == old(self).ticking(),
    {
        self.task_caller = Some(caller);
    }

    /// Wires the node state machine: the index of every next block goes to it.
    pub fn set_node_caller(&mut self, caller: Caller)
        ensures
            final(self).node() == Some(caller),
            final(self).task() == old(self).task(),
            final(self).current() == old(self).current(),
            final(self).chain() == old(self).chain(),
            final(self).ticking() == old(self).ticking(),
    {
        self.node_caller = Some(caller);
    }

    /// The caller that reaches the overlay.
    pub closed spec fn overlay(&self) -> Caller {
        self.network_caller
    }

    /// An engine over the backend, with the blank block of index 0 as
    /// its current block. `waiter` reaches the engine's own waiter.
    pub fn new(
        db_backend: Backend,
        header_store: NodeStore,
        body_store: NodeStore,
        waiter: Caller,
    ) -> (res: Result<BlockchainModule>)
        ensures
            res matches Ok(engine) ==> engine.current()@ == Block::blank(0, zero_hash())
                && !engine.ticking() && engine.message_caller() == waiter && engine.node() is None
                && engine.task() is None
                && engine.chain().extra() == db_backend.column(COL_EXTRA)
                && engine.chain().header_db.column() == Some(COL_BLOCK_HEADERS)
                && engine.chain().body_db.column() == Some(COL_BLOCK_BODIES)
                && engine.chain().header_db.as_opened() && engine.chain().body_db.as_opened(),
    {
        let db = match BlockchainDB::new(db_backend, header_store, body_store) {
            Ok(db) => db,
            Err(e) => {
                return Err(e);
            },
        };
        Ok(
            BlockchainModule {
                db,
                message_waiter: waiter,
                network_caller: waiter,
                node_caller: None,
                task_caller: None,
                message_subscribe: Vec::new(),
                current_block: Block::default(),
                ticking: false,
            },
        )
    }

    /// The block that is being filled.
    pub fn current_block(&self) -> (block: &Block)
        ensures
            *block == self.current(),
    {
        &self.current_block
    }

    /// What the block holds after an activation was recorded: the
    /// activation at the end of the body's list, the three roots where the
    /// header keeps them, and everything else as before.
    pub open spec fn with_activation(
        before: Block,
        after: Block,
        activation: NeedSignData<NodeActivation>,
        node_root: Hash256,
        node_activation_root: Hash256,
        current_activation_root: Hash256,
    ) -> bool {
        &&& after.header == Header {
            node_root,
            node_activation_root,
            current_node_activation_root: current_activation_root,
            ..before.header
        }
        &&& after.body.node_activation@ == before.body.node_activation@.push(activation)
        &&& after.body.reward == before.body.reward
        &&& after.body.tasks == before.body.tasks
        &&& after.body.task_results == before.body.task_results
    }

    /// Records a signed activation in the current block, with the roots of
    /// the node tries after it.
    pub fn save_node_activation(
        &mut self,
        node_activation: NeedSignData<NodeActivation>,
        node_root: Hash256,
        node_activation_root: Hash256,
        current_activation_root: Hash256,
    ) -> (res: Result<()>)
        ensures
            res is Ok,
            Self::with_activation(
                old(self).current(),
                final(self).current(),
                node_activation,
                node_root,
                node_activation_root,
                current_activation_root,
            ),
            final(self).chain() == old(self).chain(),
            final(self).ticking() == old(self).ticking(),
            final(self).node() == old(self).node(),
            final(self).task() == old(self).task(),
    {
        self.current_block.body.node_activation.push(node_activation);
        self.current_block.header.node_root = node_root;
        self.current_block.header.node_activation_root = node_activation_root;
        self.current_block.header.current_node_activation_root = current_activation_root;
        Ok(())
    }

    /// What the block holds after task operations were recorded: the
    /// operations at the end of the body's list, the three roots where the
    /// header keeps them, and everything else as before.
    pub open spec fn with_operations(
        before: Block,
        after: Block,
        operations: Seq<TaskOperation>,
        task_root: Hash256,
        task_operation_root: Hash256,
        current_task_operation_root: Hash256,
    ) -> bool {
        &&& after.header == Header {
            task_root,
            task_operation_root,
            current_task_operation_root,
            ..before.header
        }
        &&& after.body.tasks@ == before.body.tasks@ + operations
        &&& after.body.reward == before.body.reward
        &&& after.body.node_activation == before.body.node_activation
        &&& after.body.task_results == before.body.task_results
    }

    /// Records task operations in the current block, with the roots of the
    /// task tries after them.
    pub fn save_task_operation(
        &mut self,
        task_operation_list: Vec<TaskOperation>,
        task_root: Hash256,
        task_operation_root: Hash256,
        current_task_operation_root: Hash256,
    ) -> (res: Result<()>)
        ensures
            res is Ok,
            Self::with_operations(
                old(self).current(),
                final(self).current(),
                task_operation_list@,
                task_root,
                task_operation_root,
                current_task_operation_root,
            ),
            final(self).chain() == old(self).chain(),
            final(self).ticking() == old(self).ticking(),
            final(self).node() == old(self).node(),
            final(self).task() == old(self).task(),
    {
        let mut task_operation_list = task_operation_list;
        self.current_block.body.tasks.append(&mut task_operation_list);
        self.current_block.header.task_root = task_root;
        self.current_block.header.task_operation_root = task_operation_root;
        self.current_block.header.current_task_operation_root = current_task_operation_root;
        Ok(())
    }

    /// Marks the cadence as started. Returns whether it is to be started
    /// now: `true` the first time, `false` ever after.
    pub fn start_tick(&mut self) -> (res: Result<bool>)
        ensures
            res == Ok::<bool, self::error::BlockchainError>(!old(self).ticking()),
            final(self).ticking(),
            final(self).current() == old(self).current(),
            final(self).chain() == old(self).chain(),
            final(self).node() == old(self).node(),
            final(self).task() == old(self).task(),
    {
        let start = !self.ticking;
        self.ticking = true;
        Ok(start)
    }

    /// The rewards of a block. Rewards are not distributed yet: there are none.
    pub fn distribute_reward(block: &Block) -> (rewards: Vec<Reward>)
        ensures
            rewards@.len() == 0,
    {
        Vec::new()
    }

    /// The hash that the chain points to as that of the block packed last.
    pub open spec fn latest(&self) -> Option<Seq<u8>> {
        BlockchainDB::pointer(lookup(self.chain().extra(), KEY_LAST_HASH@))
    }

    /// Whether `after` is `before` with the current block linked to the
    /// chain: its previous hash is the hash of the block packed last.
    pub open spec fn linked(before: BlockchainModule, after: BlockchainModule) -> bool {
        &&& after.current().header.previous_hash@ == link_of(before.latest())
        &&& after.current() == Block {
            header: Header {
                previous_hash: after.current().header.previous_hash,
                ..before.current().header
            },
            ..before.current()
        }
    }

    /// The chain, for lookups of packed blocks.
    pub fn blocks(&self) -> (chain: &BlockchainDB)
        ensures
            *chain == self.chain(),
    {
        &self.db
    }

    /// The hash of the block packed last, if any was, read through the
    /// engine's own handle.
    pub fn latest_hash(&self) -> (res: Result<Option<Hash256>>)
        ensures
            res matches Ok(hash) ==> self::db::hash_view(hash) == self.latest(),
    {
        self.db.latest_hash()
    }

    /// Links the current block to the chain, before it is encoded: its
    /// previous hash becomes the hash of the block packed last, read
    /// through the engine's own handle, or 32 zero bytes where no block
    /// was packed yet. Where the read fails, the block stays as it is.
    pub fn link_block(&mut self) -> (res: Result<()>)
        ensures
            final(self).chain() == old(self).chain(),
            final(self).ticking() == old(self).ticking(),
            final(self).node() == old(self).node(),
            final(self).task() == old(self).task(),
            res is Ok ==> Self::linked(*old(self), *final(self)),
            res is Err ==> final(self).current() == old(self).current(),
    {
        match self.db.latest_hash() {
            Ok(latest) => {
                self.current_block.header.previous_hash = link(latest);
                Ok(())
            },
            Err(e) => Err(e),
        }
    }

    /// Whether the current block links to the chain: [`links_to`] the
    /// hash of the block packed last, read through the engine's own
    /// handle. `false` where that cannot be read.
    pub fn is_linked(&self) -> (res: bool)
        ensures
            res ==> self.current().header.previous_hash@ == link_of(self.latest()),
    {
        match self.db.latest_hash() {
            Ok(latest) => links_to(&self.current_block.header.previous_hash, latest),
            Err(_) => false,
        }
    }

    /// Starts the next block after the pack of the current one has ended:
    /// blank, with the next index, and with the hash of the block packed
    /// last as its previous hash. `hash` is the hash of the current block,
    /// `packed` whether the chain has taken it.
    pub fn next_block(&mut self, hash: Hash256, packed: bool) -> (outcome: PackOutcome)
        requires
            old(self).current().header.index < u64::MAX,
        ensures
            outcome.hash == hash,
            outcome.packed == packed,
            final(self).chain() == old(self).chain(),
            final(self).current()@ == Block::blank(
                (old(self).current().header.index + 1) as u64,
                if packed {
                    hash@
                } else {
                    old(self).current().header.previous_hash@
                },
            ),
            outcome.notify == match old(self).node() {
                Some(node) => Some(
                    (
                        node,
                        LocalMessage::ReqNodeDistributeTask(
                            (old(self).current().header.index + 1) as u64,
                        ),
                    ),
                ),
                None => None,
            },
            outcome.tick == match old(self).task() {
                Some(task) => Some((task, LocalMessage::BlockTick())),
                None => None,
            },
            final(self).ticking() == old(self).ticking(),
            final(self).node() == old(self).node(),
            final(self).task() == old(self).task(),
    {
        let last_index = self.current_block.header.index;
        let previous_hash = if packed {
            hash
        } else {
            self.current_block.header.previous_hash
        };
        let mut next = Block::default();
        let ghost roots = next.header.roots();
        next.header.index = last_index + 1;
        next.header.previous_hash = previous_hash;
        assert(next.header.roots() =~= roots);
        self.current_block = next;
        let notify = match self.node_caller {
            Some(node) => Some((node, LocalMessage::ReqNodeDistributeTask(last_index + 1))),
            None => None,
        };
        let tick = match self.task_caller {
            Some(task) => Some((task, LocalMessage::BlockTick())),
            None => None,
        };
        PackOutcome { hash, packed, notify, tick }
    }

    /// Packs the current block, given the encodings of its header, of its
    /// body and of the whole block.
    ///
    /// A block that does not link to the chain is not packed: its previous
    /// hash is to be the hash of the block packed last, as
    /// [`BlockchainModule::link_block`] sets it. Else the block goes into
    /// the chain under its hash, the Keccak-256 of its encoding: header
    /// and body into their tries, and the hash under the encoded index and
    /// under [`KEY_LAST_HASH`]. Either way the next block is started, with
    /// [`BlockchainModule::next_block`].
    pub fn pack_block(&mut self, header_bytes: &[u8], body_bytes: &[u8], block_bytes: &[u8]) -> (outcome:
        PackOutcome)
        requires
            old(self).current().header.index < u64::MAX,
            header_bytes@.len() <= u32::MAX,
            body_bytes@.len() <= u32::MAX,
        ensures
            outcome.hash@ == keccak256(block_bytes@),
            outcome.packed ==> old(self).current().header.previous_hash@ == link_of(
                old(self).latest(),
            ),
            outcome.packed ==> final(self).latest() == Some(outcome.hash@),
            outcome.packed ==> BlockchainDB::holds_block(
                old(self).chain(),
                final(self).chain(),
                old(self).current().header.index,
                outcome.hash@,
                header_bytes@,
                body_bytes@,
            ),
            !outcome.packed ==> final(self).chain().header_db.root() == old(
                self,
            ).chain().header_db.root() && final(self).chain().body_db.root() == old(
                self,
            ).chain().body_db.root(),
            final(self).current()@ == Block::blank(
                (old(self).current().header.index + 1) as u64,
                if outcome.packed {
                    outcome.hash@
                } else {
                    old(self).current().header.previous_hash@
                },
            ),
            outcome.notify == match old(self).node() {
                Some(node) => Some(
                    (
                        node,
                        LocalMessage::ReqNodeDistributeTask(
                            (old(self).current().header.index + 1) as u64,
                        ),
                    ),
                ),
                None => None,
            },
            outcome.tick == match old(self).task() {
                Some(task) => Some((task, LocalMessage::BlockTick())),
                None => None,
            },
            final(self).ticking() == old(self).ticking(),
            final(self).node() == old(self).node(),
            final(self).task() == old(self).task(),
    {
        let last_index = self.current_block.header.index;
        if !self.is_linked() {
            return self.next_block(BlockchainDB::block_hash(block_bytes), false);
        }
        match self.db.insert_block(last_index, header_bytes, body_bytes, block_bytes) {
            Ok(hash) => self.next_block(hash, true),
            Err(_) => self.next_block(BlockchainDB::block_hash(block_bytes), false),
        }
    }

    /// Messages of peers are not for the engine: nothing happens.
    pub fn deal_peer_message(&mut self, msg: &TopicMessage)
        ensures
            *final(self) == *old(self),
    {
    }

    /// Serves a local message: returns the answer, if the message has one,
    /// and what is to be done beside.
    ///
    /// * `ReqBlockCurrent` is answered with a copy of the current block.
    /// * `ReqBlockSaveNodeActivation` and `ReqBlockSaveTaskOperation`
    ///   record their operation and are answered with `true`.
    /// * `ReqBlockStartTick` is answered with `true`; the cadence is to be
    ///   started where it was not yet.
    /// * `ReqBlockPack` has no answer; the current block is linked to the
    ///   chain, and is to be packed.
    /// * Any other message is ignored.
    pub fn deal_local_message(&mut self, msg: &LocalMessage) -> (res: (Option<Message>, BlockEffect))
        ensures
            final(self).chain() == old(self).chain(),
            final(self).node() == old(self).node(),
            final(self).task() == old(self).task(),
            match *msg {
                LocalMessage::ReqBlockCurrent() => {
                    &&& res.0 matches Some(Message::LocalMessage(LocalMessage::AckBlockCurrent(b)))
                    &&& b@ == old(self).current()@
                    &&& res.1 == BlockEffect::Nothing
                    &&& final(self).current() == old(self).current()
                    &&& final(self).ticking() == old(self).ticking()
                },
                LocalMessage::ReqBlockSaveNodeActivation(activation, a, b, c) => {
                    &&& res.0 matches Some(
                        Message::LocalMessage(LocalMessage::AckBlockSaveNodeActivation(true)),
                    )
                    &&& res.1 == BlockEffect::Nothing
                    &&& final(self).ticking() == old(self).ticking()
                    &&& final(self).current().header == Header {
                        node_root: a,
                        node_activation_root: b,
                        current_node_activation_root: c,
                        ..old(self).current().header
                    }
                    &&& activations_view(final(self).current().body.node_activation@)
                        == activations_view(old(self).current().body.node_activation@).push(
                        activation@,
                    )
                    &&& final(self).current().body.reward == old(self).current().body.reward
                    &&& final(self).current().body.tasks == old(self).current().body.tasks
                    &&& final(self).current().body.task_results == old(
                        self,
                    ).current().body.task_results
                },
                LocalMessage::ReqBlockSaveTaskOperation(operations, a, b, c) => {
                    &&& res.0 matches Some(
                        Message::LocalMessage(LocalMessage::AckBlockSaveTaskOperation(true)),
                    )
                    &&& res.1 == BlockEffect::Nothing
                    &&& final(self).ticking() == old(self).ticking()
                    &&& Self::with_operations(
                        old(self).current(),
                        final(self).current(),
                        operations@,
                        a,
                        b,
                        c,
                    )
                },
                LocalMessage::ReqBlockStartTick() => {
                    &&& res.0 matches Some(
                        Message::LocalMessage(LocalMessage::AckBlockStartTick(true)),
                    )
                    &&& res.1 == if old(self).ticking() {
                        BlockEffect::Nothing
                    } else {
                        BlockEffect::StartTick
                    }
                    &&& final(self).ticking()
                    &&& final(self).current() == old(self).current()
                },
                LocalMessage::ReqBlockPack() => {
                    &&& res.0 is None
                    &&& res.1 == BlockEffect::Pack
                    &&& final(self).current() == old(self).current() || Self::linked(
                        *old(self),
                        *final(self),
                    )
                    &&& final(self).ticking() == old(self).ticking()
                },
                _ => {
                    &&& res.0 is None
                    &&& res.1 == BlockEffect::Nothing
                    &&& final(self).current() == old(self).current()
                    &&& final(self).ticking() == old(self).ticking()
                },
            },
    {
        match msg {
            LocalMessage::ReqBlockCurrent() => (
                Some(
                    Message::LocalMessage(
                        LocalMessage::AckBlockCurrent(self.current_block.duplicate()),
                    ),
                ),
                BlockEffect::Nothing,
            ),
            LocalMessage::ReqBlockSaveNodeActivation(
                node_activation,
                node_root,
                node_activation_root,
                current_node_activation_root,
            ) => {
                let ghost before = activations_view(self.current_block.body.node_activation@);
                let res = self.save_node_activation(
                    node_activation.duplicate(),
                    *node_root,
                    *node_activation_root,
                    *current_node_activation_root,
                );
                assert(activations_view(self.current_block.body.node_activation@) =~= before.push(
                    node_activation@,
                ));
                (
                    Some(
                        Message::LocalMessage(
                            LocalMessage::AckBlockSaveNodeActivation(res.is_ok()),
                        ),
                    ),
                    BlockEffect::Nothing,
                )
            },
            LocalMessage::ReqBlockSaveTaskOperation(
                task_operation_list,
                task_root,
                task_operation_root,
                current_task_operation_root,
            ) => {
                let res = self.save_task_operation(
                    copy_operations(task_operation_list),
                    *task_root,
                    *task_operation_root,
                    *current_task_operation_root,
                );
                (
                    Some(
                        Message::LocalMessage(LocalMessage::AckBlockSaveTaskOperation(res.is_ok())),
                    ),
                    BlockEffect::Nothing,
                )
            },
            LocalMessage::ReqBlockStartTick() => {
                let effect = match self.start_tick() {
                    Ok(true) => BlockEffect::StartTick,
                    _ => BlockEffect::Nothing,
                };
                (Some(Message::LocalMessage(LocalMessage::AckBlockStartTick(true))), effect)
            },
            LocalMessage::ReqBlockPack() => {
                let _ = self.link_block();
                (None, BlockEffect::Pack)
            },
            _ => (None, BlockEffect::Nothing),
        }
    }
}

impl NetworkModule for BlockchainModule {
    closed spec fn subscriptions(&self) -> Seq<(Topics, Caller)> {
        self.message_subscribe@
    }

    closed spec fn network_caller(&self) -> Caller {
        self.network_caller
    }

    fn set_message_caller(&mut self, caller: Caller) {
        self.network_caller = caller;
    }

    fn get_message_subscribe(&self) -> (subscribe: Vec<(Topics, Caller)>) {
        crate::network::copy_subscriptions(&self.message_subscribe)
    }
}

impl LocalMessageModule for BlockchainModule {
    closed spec fn message_caller(&self) -> Caller {
        self.message_waiter
    }

    fn get_message_caller(&self) -> (caller: Caller) {
        self.message_waiter
    }
}

} // verus!
