//! Blocks, and where the chain keeps its pointers to them.
//!
//! A packed block is found by its hash, the Keccak-256 of its encoding.
//! The `extra` column maps the encoded index of every packed block to its
//! hash, and [`KEY_LAST_HASH`] to the hash of the block packed last.

use super::error::{BlockchainError, Result};
use crate::database::data_types::TaskType;
use crate::database::db::{
    batch_ops, bytes_view, lemma_apply_push, lookup, Backend, WriteOp, COL_BLOCK_BODIES,
    COL_BLOCK_HEADERS, COL_EXTRA,
};
use crate::database::trie::{with_entry, NodeStore};
use crate::database::{open_column, AppDB};
use crate::database::keccak::{keccak256, keccak_hash, Hash256};
use kvdb::DBTransaction;
use vstd::prelude::*;
use vstd::string::StringExecFns;
use vstd::slice::slice_to_vec;

verus! {

/// `latest_hash`: the key of the hash of the block packed last.
pub const KEY_LAST_HASH: [u8; 11] = [
    0x6c,
    0x61,
    0x74,
    0x65,
    0x73,
    0x74,
    0x5f,
    0x68,
    0x61,
    0x73,
    0x68,
];

#[derive(Debug, PartialEq, Clone, Copy, Eq, Structural)]
pub enum TaskOperationType {
    Add,
    Remove,
    Disable,
    Enable,
}

/// One change of the task catalog.
#[derive(Debug, PartialEq, Clone, Copy, Eq)]
pub struct TaskOperation {
    pub id: u64,
    pub operation: TaskOperationType,
    pub binary_hash: Hash256,
    pub task_type: TaskType,
    pub node_limit: u64,
    pub reward_weight: u64,
}

#[derive(Debug, PartialEq, Clone, Eq)]
pub struct TaskResult {
    pub id: u64,
    pub timestamp: u64,
    pub result: Vec<u8>,
}

#[derive(Debug, PartialEq, Clone, Copy, Eq, Structural)]
pub enum ActivationOperation {
    Activate,
    Deactivate,
}

/// The record that registers a peer as active, or takes it out.
#[derive(Debug, PartialEq, Clone, Eq)]
pub struct NodeActivation {
    pub operation: ActivationOperation,
    pub peer_id: String,
    pub account: Vec<u8>,
    pub pub_key: Vec<u8>,
}

/// A record with the signature over its encoding.
#[derive(Debug, PartialEq, Clone, Eq)]
pub struct NeedSignData<T> {
    pub data: T,
    pub signature: Vec<u8>,
}

#[derive(Debug, PartialEq, Clone, Eq)]
pub struct Reward {
    pub account: Vec<u8>,
    pub amount: u64,
}

#[derive(Debug, PartialEq, Clone, Eq)]
pub struct Header {
    pub index: u64,
    pub previous_hash: Hash256,
    pub account_root: Hash256,
    pub reward_root: Hash256,
    pub task_root: Hash256,
    pub task_operation_root: Hash256,
    pub task_result_root: Hash256,
    pub node_root: Hash256,
    pub node_activation_root: Hash256,
    pub current_reward_root: Hash256,
    pub current_task_operation_root: Hash256,
    pub current_task_result_root: Hash256,
    pub current_node_activation_root: Hash256,
    pub timestamp: u64,
    pub version: u64,
    pub minter: Vec<u8>,
    pub signature: Vec<u8>,
}

#[derive(Debug, PartialEq, Clone, Eq)]
pub struct Body {
    pub reward: Vec<Reward>,
    pub tasks: Vec<TaskOperation>,
    pub task_results: Vec<TaskResult>,
    pub node_activation: Vec<NeedSignData<NodeActivation>>,
}

#[derive(Debug, PartialEq, Clone, Eq)]
pub struct Block {
    pub header: Header,
    pub body: Body,
}

/// A task result as a value.
pub struct TaskResultView {
    pub id: u64,
    pub timestamp: u64,
    pub result: Seq<u8>,
}

/// A signed activation as a value.
pub struct ActivationView {
    pub operation: ActivationOperation,
    pub peer_id: Seq<char>,
    pub account: Seq<u8>,
    pub pub_key: Seq<u8>,
    pub signature: Seq<u8>,
}

/// A reward as a value.
pub struct RewardView {
    pub account: Seq<u8>,
    pub amount: u64,
}

/// A header as a value: the index, the twelve roots behind the previous
/// hash in the order of the fields, and the rest.
pub struct HeaderView {
    pub index: u64,
    pub previous_hash: Seq<u8>,
    pub roots: Seq<Seq<u8>>,
    pub timestamp: u64,
    pub version: u64,
    pub minter: Seq<u8>,
    pub signature: Seq<u8>,
}

/// A body as a value.
pub struct BodyView {
    pub reward: Seq<RewardView>,
    pub tasks: Seq<TaskOperation>,
    pub task_results: Seq<TaskResultView>,
    pub node_activation: Seq<ActivationView>,
}

/// A block as a value.
pub struct BlockView {
    pub header: HeaderView,
    pub body: BodyView,
}

/// Thirty-two zero bytes.
pub open spec fn zero_hash() -> Seq<u8> {
    Seq::new(32, |i: int| 0u8)
}

/// A copy of a byte string.
pub fn copy_bytes(bytes: &Vec<u8>) -> (copy: Vec<u8>)
    ensures
        copy@ == bytes@,
{
    slice_to_vec(bytes.as_slice())
}

impl TaskResult {
    pub open spec fn view(&self) -> TaskResultView {
        TaskResultView { id: self.id, timestamp: self.timestamp, result: self.result@ }
    }

    pub fn duplicate(&self) -> (copy: TaskResult)
        ensures
            copy@ == self@,
    {
        TaskResult { id: self.id, timestamp: self.timestamp, result: copy_bytes(&self.result) }
    }
}

impl Reward {
    pub open spec fn view(&self) -> RewardView {
        RewardView { account: self.account@, amount: self.amount }
    }

    pub fn duplicate(&self) -> (copy: Reward)
        ensures
            copy@ == self@,
    {
        Reward { account: copy_bytes(&self.account), amount: self.amount }
    }
}

impl NeedSignData<NodeActivation> {
    pub open spec fn view(&self) -> ActivationView {
        ActivationView {
            operation: self.data.operation,
            peer_id: self.data.peer_id@,
            account: self.data.account@,
            pub_key: self.data.pub_key@,
            signature: self.signature@,
        }
    }

    pub fn duplicate(&self) -> (copy: NeedSignData<NodeActivation>)
        ensures
            copy@ == self@,
    {
        NeedSignData {
            data: NodeActivation {
                operation: self.data.operation,
                peer_id: self.data.peer_id.clone(),
                account: copy_bytes(&self.data.account),
                pub_key: copy_bytes(&self.data.pub_key),
            },
            signature: copy_bytes(&self.signature),
        }
    }
}

impl Header {
    /// The twelve roots in the order of the fields.
    pub open spec fn roots(&self) -> Seq<Seq<u8>> {
        seq![
            self.account_root@,
            self.reward_root@,
            self.task_root@,
            self.task_operation_root@,
            self.task_result_root@,
            self.node_root@,
            self.node_activation_root@,
            self.current_reward_root@,
            self.current_task_operation_root@,
            self.current_task_result_root@,
            self.current_node_activation_root@,
        ]
    }

    pub open spec fn view(&self) -> HeaderView {
        HeaderView {
            index: self.index,
            previous_hash: self.previous_hash@,
            roots: self.roots(),
            timestamp: self.timestamp,
            version: self.version,
            minter: self.minter@,
            signature: self.signature@,
        }
    }

    /// The header of a block that nothing was recorded in yet.
    pub open spec fn blank(index: u64, previous_hash: Seq<u8>) -> HeaderView {
        HeaderView {
            index,
            previous_hash,
            roots: Seq::new(11, |i: int| zero_hash()),
            timestamp: 0,
            version: 0,
            minter: Seq::empty(),
            signature: Seq::empty(),
        }
    }

    pub fn duplicate(&self) -> (copy: Header)
        ensures
            copy@ == self@,
    {
        Header {
            index: self.index,
            previous_hash: self.previous_hash,
            account_root: self.account_root,
            reward_root: self.reward_root,
            task_root: self.task_root,
            task_operation_root: self.task_operation_root,
            task_result_root: self.task_result_root,
            node_root: self.node_root,
            node_activation_root: self.node_activation_root,
            current_reward_root: self.current_reward_root,
            current_task_operation_root: self.current_task_operation_root,
            current_task_result_root: self.current_task_result_root,
            current_node_activation_root: self.current_node_activation_root,
            timestamp: self.timestamp,
            version: self.version,
            minter: copy_bytes(&self.minter),
            signature: copy_bytes(&self.signature),
        }
    }
}

impl Default for Header {
    fn default() -> (header: Self)
        ensures
            header@ == Header::blank(0, zero_hash()),
    {
        let zero: Hash256 = [0u8; 32];
        assert(zero@ =~= zero_hash());
        let header = Header {
            index: 0,
            previous_hash: zero,
            account_root: zero,
            reward_root: zero,
            task_root: zero,
            task_operation_root: zero,
            task_result_root: zero,
            node_root: zero,
            node_activation_root: zero,
            current_reward_root: zero,
            current_task_operation_root: zero,
            current_task_result_root: zero,
            current_node_activation_root: zero,
            timestamp: 0,
            version: 0,
            minter: Vec::new(),
            signature: Vec::new(),
        };
        assert(header.roots() =~= Seq::new(11, |i: int| zero_hash()));
        header
    }
}

/// The values of a list of rewards.
pub open spec fn rewards_view(list: Seq<Reward>) -> Seq<RewardView> {
    Seq::new(list.len(), |i: int| list[i]@)
}

/// The values of a list of task results.
pub open spec fn results_view(list: Seq<TaskResult>) -> Seq<TaskResultView> {
    Seq::new(list.len(), |i: int| list[i]@)
}

/// The values of a list of signed activations.
pub open spec fn activations_view(list: Seq<NeedSignData<NodeActivation>>) -> Seq<ActivationView> {
    Seq::new(list.len(), |i: int| list[i]@)
}

/// A copy of a list of task operations.
pub fn copy_operations(list: &Vec<TaskOperation>) -> (copy: Vec<TaskOperation>)
    ensures
        copy@ == list@,
{
    let mut copy: Vec<TaskOperation> = Vec::new();
    let mut i: usize = 0;
    while i < list.len()
        invariant
            i <= list@.len(),
            copy@ == list@.take(i as int),
        decreases list@.len() - i,
    {
        copy.push(list[i]);
        assert(list@.take(i + 1) =~= list@.take(i as int).push(list@[i as int]));
        i += 1;
    }
    assert(list@.take(i as int) =~= list@);
    copy
}

impl Body {
    pub open spec fn view(&self) -> BodyView {
        BodyView {
            reward: rewards_view(self.reward@),
            tasks: self.tasks@,
            task_results: results_view(self.task_results@),
            node_activation: activations_view(self.node_activation@),
        }
    }

    /// The body of a block that nothing was recorded in yet.
    pub open spec fn blank() -> BodyView {
        BodyView {
            reward: Seq::empty(),
            tasks: Seq::empty(),
            task_results: Seq::empty(),
            node_activation: Seq::empty(),
        }
    }

    pub fn new() -> (body: Self)
        ensures
            body@ == Body::blank(),
    {
        let body = Body {
            reward: Vec::new(),
            tasks: Vec::new(),
            task_results: Vec::new(),
            node_activation: Vec::new(),
        };
        assert(body@.reward =~= Seq::empty());
        assert(body@.task_results =~= Seq::empty());
        assert(body@.node_activation =~= Seq::empty());
        body
    }

    pub fn duplicate(&self) -> (copy: Body)
        ensures
            copy@ == self@,
    {
        let mut reward: Vec<Reward> = Vec::new();
        let mut i: usize = 0;
        while i < self.reward.len()
            invariant
                i <= self.reward@.len(),
                reward@.len() == i,
                forall|n: int| 0 <= n < i ==> (#[trigger] reward@[n])@ == self.reward@[n]@,
            decreases self.reward@.len() - i,
        {
            reward.push(self.reward[i].duplicate());
            i += 1;
        }
        assert(rewards_view(reward@) =~= rewards_view(self.reward@));
        let mut task_results: Vec<TaskResult> = Vec::new();
        let mut j: usize = 0;
        while j < self.task_results.len()
            invariant
                j <= self.task_results@.len(),
                task_results@.len() == j,
                forall|n: int|
                    0 <= n < j ==> (#[trigger] task_results@[n])@ == self.task_results@[n]@,
            decreases self.task_results@.len() - j,
        {
            task_results.push(self.task_results[j].duplicate());
            j += 1;
        }
        assert(results_view(task_results@) =~= results_view(self.task_results@));
        let mut node_activation: Vec<NeedSignData<NodeActivation>> = Vec::new();
        let mut k: usize = 0;
        while k < self.node_activation.len()
            invariant
                k <= self.node_activation@.len(),
                node_activation@.len() == k,
                forall|n: int|
                    0 <= n < k ==> (#[trigger] node_activation@[n])@ == self.node_activation@[n]@,
            decreases self.node_activation@.len() - k,
        {
            node_activation.push(self.node_activation[k].duplicate());
            k += 1;
        }
        assert(activations_view(node_activation@) =~= activations_view(self.node_activation@));
        Body { reward, tasks: copy_operations(&self.tasks), task_results, node_activation }
    }
}

impl Default for Body {
    fn default() -> (body: Self)
        ensures
            body@ == Body::blank(),
    {
        Body::new()
    }
}

impl Block {
    pub open spec fn view(&self) -> BlockView {
        BlockView { header: self.header@, body: self.body@ }
    }

    /// The block with the given index that nothing was recorded in yet.
    pub open spec fn blank(index: u64, previous_hash: Seq<u8>) -> BlockView {
        BlockView { header: Header::blank(index, previous_hash), body: Body::blank() }
    }

    /// A copy of the block.
    pub fn duplicate(&self) -> (copy: Block)
        ensures
            copy@ == self@,
    {
        Block { header: self.header.duplicate(), body: self.body.duplicate() }
    }
}

impl Default for Block {
    fn default() -> (block: Self)
        ensures
            block@ == Block::blank(0, zero_hash()),
    {
        Block { header: Header::default(), body: Body::default() }
    }
}

/// The error of `serde_cbor`, carried through as an opaque value.
#[verifier::external_type_specification]
#[verifier::external_body]
pub struct ExCborError(serde_cbor::Error);

/// The CBOR encoding of an unsigned number: the number itself up to 23,
/// else a byte that tells the width (`0x18`, `0x19`, `0x1a`, `0x1b` for 1,
/// 2, 4 and 8 bytes), then the number, big-endian, in the least of those
/// widths that holds it.
pub open spec fn cbor_u64(n: u64) -> Seq<u8> {
    if n <= 0x17 {
        seq![n as u8]
    } else if n <= 0xff {
        seq![0x18u8, n as u8]
    } else if n <= 0xffff {
        seq![0x19u8, (n / 0x100) as u8, (n % 0x100) as u8]
    } else if n <= 0xffff_ffff {
        seq![
            0x1au8,
            (n / 0x100_0000) as u8,
            (n / 0x1_0000 % 0x100) as u8,
            (n / 0x100 % 0x100) as u8,
            (n % 0x100) as u8,
        ]
    } else {
        seq![
            0x1bu8,
            (n / 0x100_0000_0000_0000) as u8,
            (n / 0x1_0000_0000_0000 % 0x100) as u8,
            (n / 0x100_0000_0000 % 0x100) as u8,
            (n / 0x1_0000_0000 % 0x100) as u8,
            (n / 0x100_0000 % 0x100) as u8,
            (n / 0x1_0000 % 0x100) as u8,
            (n / 0x100 % 0x100) as u8,
            (n % 0x100) as u8,
        ]
    }
}

/// Calls `serde_cbor::to_vec` on a `u64`. The contract claims that what it
/// returns on success is the CBOR encoding as [`cbor_u64`] spells it out.
#[verifier::external_body]
fn encode_index(index: u64) -> (res: std::result::Result<Vec<u8>, serde_cbor::Error>)
    ensures
        res matches Ok(bytes) ==> bytes@ == cbor_u64(index),
{
    serde_cbor::to_vec(&index)
}

/// Formats an encoding error with `Debug`, through `format!`. Nothing is claimed of the text.
#[verifier::external_body]
fn cbor_error_text(cause: &serde_cbor::Error) -> String {
    format!("{:?}", cause)
}

/// The key of a block's hash in the `extra` column: its encoded index.
pub fn cbor_index(index: u64) -> (res: Result<Vec<u8>>)
    ensures
        res matches Ok(key) ==> key@ == cbor_u64(index),
{
    match encode_index(index) {
        Ok(key) => Ok(key),
        Err(e) => Err(BlockchainError { message: cbor_error_text(&e) }),
    }
}

/// A hash from 32 bytes.
pub fn hash_from_bytes(bytes: &Vec<u8>) -> (hash: Hash256)
    requires
        bytes@.len() == 32,
    ensures
        hash@ == bytes@,
{
    let mut hash: Hash256 = [0u8; 32];
    let mut i: usize = 0;
    while i < 32
        invariant
            i <= 32,
            bytes@.len() == 32,
            forall|j: int| 0 <= j < i ==> hash@[j] == bytes@[j],
        decreases 32 - i,
    {
        hash[i] = bytes[i];
        i += 1;
    }
    assert(hash@ =~= bytes@);
    hash
}

/// The chain in the store: the headers and the bodies of the packed
/// blocks, each in a trie under the hash of its block, and the pointers in
/// the `extra` column.
pub struct BlockchainDB {
    pub db: Backend,
    pub header_db: AppDB,
    pub body_db: AppDB,
}

impl BlockchainDB {
    /// What the `extra` column holds.
    pub open spec fn extra(&self) -> Map<Seq<u8>, Seq<u8>> {
        self.db.column(COL_EXTRA)
    }

    /// The chain over the backend: the tries of the headers and of the
    /// bodies under the roots that their columns keep. The handle is to
    /// hold the named entries of the columns of the headers and of the
    /// bodies, which it parts with for the tries to keep their roots, and,
    /// for the pointers, those of the `extra` column, which stay with it.
    pub fn new(db: Backend, header_store: NodeStore, body_store: NodeStore) -> (res: Result<Self>)
        ensures
            res matches Ok(chain) ==> {
                &&& chain.header_db.as_opened()
                &&& chain.body_db.as_opened()
                &&& chain.header_db.column() == Some(COL_BLOCK_HEADERS)
                &&& chain.body_db.column() == Some(COL_BLOCK_BODIES)
                &&& chain.extra() == db.column(COL_EXTRA)
                &&& chain.db.holds_named(COL_EXTRA) == db.holds_named(COL_EXTRA)
            },
            !db.holds_named(COL_BLOCK_HEADERS) || !db.holds_named(COL_BLOCK_BODIES) ==> res is Err,
    {
        let mut db = db;
        let header_db = match open_column(&mut db, COL_BLOCK_HEADERS, header_store) {
            Ok(trie) => trie,
            Err(e) => {
                return Err(BlockchainError::from_database(e));
            },
        };
        let body_db = match open_column(&mut db, COL_BLOCK_BODIES, body_store) {
            Ok(trie) => trie,
            Err(e) => {
                return Err(BlockchainError::from_database(e));
            },
        };
        Ok(BlockchainDB { db, header_db, body_db })
    }

    /// The hash of a block: the Keccak-256 of its encoding.
    pub fn block_hash(block_bytes: &[u8]) -> (hash: Hash256)
        ensures
            hash@ == keccak256(block_bytes@),
    {
        keccak_hash(block_bytes)
    }

    /// Whether the chain holds the block with the given index, hash,
    /// header and body, where `before` is the chain before the block.
    pub open spec fn holds_block(
        before: BlockchainDB,
        after: BlockchainDB,
        index: u64,
        hash: Seq<u8>,
        header_bytes: Seq<u8>,
        body_bytes: Seq<u8>,
    ) -> bool {
        &&& after.header_db.entries() == with_entry(before.header_db.entries(), hash, header_bytes)
        &&& after.body_db.entries() == with_entry(before.body_db.entries(), hash, body_bytes)
        &&& after.extra() == before.extra().insert(cbor_u64(index), hash).insert(
            KEY_LAST_HASH@,
            hash,
        )
        &&& after.header_db.keeps_root()
        &&& after.body_db.keeps_root()
    }

    /// Packs a block into the chain, given the encodings of its header,
    /// of its body and of the whole block.
    ///
    /// The header and the body go into their tries under the hash of the
    /// block, with [`BlockchainDB::store_parts`], and each trie keeps its
    /// new root in its column; then, with [`BlockchainDB::record_block`],
    /// in one batch in the `extra` column, the hash goes under the
    /// encoded index and under [`KEY_LAST_HASH`]. Where a step fails, the
    /// tries go back to the roots they had. The pointers are written last
    /// and in one batch: they are changed only by a batch that the store
    /// has taken. The error tells the step that failed by how its text
    /// begins: [`PARTS_FAILED`] for the tries, and then the pointers are
    /// as they were; [`POINTERS_FAILED`] for the batch.
    pub fn insert_block(
        &mut self,
        index: u64,
        header_bytes: &[u8],
        body_bytes: &[u8],
        block_bytes: &[u8],
    ) -> (res: Result<Hash256>)
        requires
            header_bytes@.len() <= u32::MAX,
            body_bytes@.len() <= u32::MAX,
        ensures
            res matches Ok(hash) ==> hash@ == keccak256(block_bytes@) && Self::holds_block(
                *old(self),
                *final(self),
                index,
                hash@,
                header_bytes@,
                body_bytes@,
            ),
            res matches Ok(_) ==> (old(self).header_db.wf() ==> final(self).header_db.wf()) && (old(
                self,
            ).body_db.wf() ==> final(self).body_db.wf()),
            res is Err ==> final(self).header_db.root() == old(self).header_db.root()
                && final(self).body_db.root() == old(self).body_db.root(),
            forall|c: u32| #[trigger]
                final(self).db.holds_named(c) == old(self).db.holds_named(c),
            final(self).header_db.lasting() == old(self).header_db.lasting(),
            final(self).body_db.lasting() == old(self).body_db.lasting(),
            final(self).header_db.column() == old(self).header_db.column(),
            final(self).body_db.column() == old(self).body_db.column(),
            !old(self).db.holds_named(COL_EXTRA) ==> res is Err && final(self).db == old(self).db,
            res matches Err(e) ==> parts_failed(e) != pointers_failed(e),
            res matches Err(e) ==> (parts_failed(e) ==> final(self).db == old(self).db),
    {
        let hash = keccak_hash(block_bytes);
        let header_root = self.header_db.get_root();
        let body_root = self.body_db.get_root();
        match self.store_parts(&hash, header_bytes, body_bytes) {
            Ok(()) => {},
            Err(e) => {
                return Err(failed_at(true, e));
            },
        }
        match self.record_block(index, &hash) {
            Ok(()) => Ok(hash),
            Err(e) => {
                let _ = self.header_db.restore(header_root);
                let _ = self.body_db.restore(body_root);
                Err(failed_at(false, e))
            },
        }
    }

    /// Puts the header and the body of a block into their tries, under
    /// the hash of the block. The pointers stay as they are. Where one of
    /// the two fails, the tries go back to the roots they had.
    pub fn store_parts(&mut self, hash: &Hash256, header_bytes: &[u8], body_bytes: &[u8]) -> (res:
        Result<()>)
        requires
            header_bytes@.len() <= u32::MAX,
            body_bytes@.len() <= u32::MAX,
        ensures
            final(self).db == old(self).db,
            res is Ok ==> {
                &&& final(self).header_db.entries() == with_entry(
                    old(self).header_db.entries(),
                    hash@,
                    header_bytes@,
                )
                &&& final(self).body_db.entries() == with_entry(
                    old(self).body_db.entries(),
                    hash@,
                    body_bytes@,
                )
                &&& old(self).header_db.wf() ==> final(self).header_db.wf()
                &&& old(self).body_db.wf() ==> final(self).body_db.wf()
                &&& final(self).header_db.keeps_root()
                &&& final(self).body_db.keeps_root()
            },
            final(self).header_db.lasting() == old(self).header_db.lasting(),
            final(self).body_db.lasting() == old(self).body_db.lasting(),
            final(self).header_db.column() == old(self).header_db.column(),
            final(self).body_db.column() == old(self).body_db.column(),
            res is Err ==> final(self).header_db.root() == old(self).header_db.root()
                && final(self).body_db.root() == old(self).body_db.root(),
    {
        let header_root = self.header_db.get_root();
        match self.header_db.insert(hash.as_slice(), header_bytes) {
            Ok(()) => {},
            Err(e) => {
                return Err(BlockchainError::from_database(e));
            },
        }
        match self.body_db.insert(hash.as_slice(), body_bytes) {
            Ok(()) => Ok(()),
            Err(e) => {
                let _ = self.header_db.restore(header_root);
                Err(BlockchainError::from_database(e))
            },
        }
    }

    /// Records a block as packed: in one batch in the `extra` column, the
    /// hash under the encoded index and under [`KEY_LAST_HASH`]. It fails,
    /// and nothing is written, where the index cannot be encoded and where
    /// the chain's handle does not hold the named entries of the column.
    pub fn record_block(&mut self, index: u64, hash: &Hash256) -> (res: Result<()>)
        ensures
            final(self).header_db == old(self).header_db,
            final(self).body_db == old(self).body_db,
            forall|c: u32| #[trigger]
                final(self).db.holds_named(c) == old(self).db.holds_named(c),
            !old(self).db.holds_named(COL_EXTRA) ==> res is Err && final(self).db == old(self).db,
            res is Ok ==> final(self).extra() == old(self).extra().insert(
                cbor_u64(index),
                hash@,
            ).insert(KEY_LAST_HASH@, hash@),
    {
        let header_index_bytes = match cbor_index(index) {
            Ok(key) => key,
            Err(e) => {
                return Err(e);
            },
        };
        let mut tx = DBTransaction::new();
        let ghost none = batch_ops(tx);
        tx.put(COL_EXTRA, header_index_bytes.as_slice(), hash.as_slice());
        let ghost one = batch_ops(tx);
        tx.put(COL_EXTRA, KEY_LAST_HASH.as_slice(), hash.as_slice());
        let columns = [COL_EXTRA];
        proof {
            let first: WriteOp = (COL_EXTRA, cbor_u64(index), Some(hash@));
            let second: WriteOp = (COL_EXTRA, KEY_LAST_HASH@, Some(hash@));
            let extra = self.extra();
            lemma_apply_push(none, first, COL_EXTRA, extra);
            lemma_apply_push(one, second, COL_EXTRA, extra);
            assert(cbor_u64(index).len() <= 9);
            assert(columns@[0] == COL_EXTRA);
            assert(batch_ops(tx) =~= seq![first, second]);
        }
        match self.db.write(tx, columns.as_slice()) {
            Ok(()) => Ok(()),
            Err(e) => Err(BlockchainError::from_database(e)),
        }
    }

    /// What a pointer read from the `extra` column stands for: a hash,
    /// where it has 32 bytes.
    pub open spec fn pointer(stored: Option<Seq<u8>>) -> Option<Seq<u8>> {
        match stored {
            Some(bytes) => if bytes.len() == 32 {
                Some(bytes)
            } else {
                None
            },
            None => None,
        }
    }

    /// The hash of the block with the given index: [`hash_at`] what the
    /// `extra` column holds under the encoded index. It fails where the
    /// index cannot be encoded and where the read fails.
    pub fn get_hash_by_index(&self, index: u64) -> (res: Result<Hash256>)
        ensures
            res matches Ok(hash) ==> Some(hash@) == Self::pointer(
                lookup(self.extra(), cbor_u64(index)),
            ),
            !self.db.holds_named(COL_EXTRA) ==> res is Err,
    {
        let key = match cbor_index(index) {
            Ok(key) => key,
            Err(e) => {
                return Err(e);
            },
        };
        match self.db.read(COL_EXTRA, key.as_slice()) {
            Ok(stored) => hash_at(stored),
            Err(e) => Err(BlockchainError::from_database(e)),
        }
    }

    /// The encoded header and body of the block with the given index.
    pub fn get_block_by_index(&self, index: u64) -> (res: Result<(Vec<u8>, Vec<u8>)>)
        ensures
            res matches Ok(parts) ==> {
                let hash = Self::pointer(lookup(self.extra(), cbor_u64(index)));
                &&& hash is Some
                &&& lookup(self.header_db.entries(), hash.unwrap()) == Some(parts.0@)
                &&& lookup(self.body_db.entries(), hash.unwrap()) == Some(parts.1@)
            },
    {
        let hash = match self.get_hash_by_index(index) {
            Ok(hash) => hash,
            Err(e) => {
                return Err(e);
            },
        };
        self.get_block_by_hash(&hash)
    }

    /// The encoded header and body of the block with the given hash:
    /// [`block_parts`] what the two tries hold under the hash. It fails
    /// where a lookup in a trie fails.
    pub fn get_block_by_hash(&self, hash: &Hash256) -> (res: Result<(Vec<u8>, Vec<u8>)>)
        ensures
            res matches Ok(parts) ==> lookup(self.header_db.entries(), hash@) == Some(parts.0@)
                && lookup(self.body_db.entries(), hash@) == Some(parts.1@),
    {
        let header = match self.header_db.get(hash.as_slice()) {
            Ok(header) => header,
            Err(e) => {
                return Err(BlockchainError::from_database(e));
            },
        };
        let body = match self.body_db.get(hash.as_slice()) {
            Ok(body) => body,
            Err(e) => {
                return Err(BlockchainError::from_database(e));
            },
        };
        block_parts(header, body)
    }

    /// The hash of the block packed last, if any was, read through the
    /// chain's own handle.
    pub fn latest_hash(&self) -> (res: Result<Option<Hash256>>)
        ensures
            res matches Ok(hash) ==> hash_view(hash) == Self::pointer(
                lookup(self.extra(), KEY_LAST_HASH@),
            ),
            !self.db.holds_named(COL_EXTRA) ==> res is Err,
    {
        get_latest_hash(&self.db)
    }
}

/// How the text of the error begins with which [`BlockchainDB::insert_block`]
/// fails where the header or the body did not go into its trie.
pub const PARTS_FAILED: &'static str = "tries: ";

/// How the text of the error begins with which [`BlockchainDB::insert_block`]
/// fails where the pointers were not written.
pub const POINTERS_FAILED: &'static str = "pointers: ";

/// Whether an error tells that the header or the body of a block did not
/// go into its trie.
pub open spec fn parts_failed(e: BlockchainError) -> bool {
    PARTS_FAILED@.is_prefix_of(e.message@)
}

/// Whether an error tells that the pointers to a block were not written.
pub open spec fn pointers_failed(e: BlockchainError) -> bool {
    POINTERS_FAILED@.is_prefix_of(e.message@)
}

/// The error of a step of [`BlockchainDB::insert_block`]: the text of the
/// cause behind the name of the step, which is that of the tries where
/// `parts` is set, else that of the pointers.
fn failed_at(parts: bool, cause: BlockchainError) -> (e: BlockchainError)
    ensures
        e.message@ == if parts {
            PARTS_FAILED@
        } else {
            POINTERS_FAILED@
        } + cause.message@,
        parts_failed(e) == parts,
        pointers_failed(e) == !parts,
{
    let step = if parts {
        PARTS_FAILED
    } else {
        POINTERS_FAILED
    };
    let mut text = step.to_owned();
    text.append(cause.message.as_str());
    proof {
        reveal_strlit("tries: ");
        reveal_strlit("pointers: ");
        assert(text@.subrange(0, step@.len() as int) =~= step@);
        assert(text@[0] == step@[0]);
        assert(PARTS_FAILED@[0] == 't');
        assert(POINTERS_FAILED@[0] == 'p');
        if parts {
            if POINTERS_FAILED@.is_prefix_of(text@) {
                assert(text@.subrange(0, POINTERS_FAILED@.len() as int)[0] == text@[0]);
            }
        } else {
            if PARTS_FAILED@.is_prefix_of(text@) {
                assert(text@.subrange(0, PARTS_FAILED@.len() as int)[0] == text@[0]);
            }
        }
    }
    BlockchainError { message: text }
}

/// A chain that holds a block has the pointer to it under its encoded
/// index and as its latest hash, and the header and the body under the
/// hash: a lookup by the index that succeeds returns the two encodings
/// that were packed. (An empty encoding is none: to put in an empty value
/// is to take the key out.)
pub proof fn lemma_packed_block_is_found(
    before: BlockchainDB,
    after: BlockchainDB,
    index: u64,
    hash: Seq<u8>,
    header_bytes: Seq<u8>,
    body_bytes: Seq<u8>,
)
    requires
        BlockchainDB::holds_block(before, after, index, hash, header_bytes, body_bytes),
        hash.len() == 32,
        header_bytes.len() > 0,
        body_bytes.len() > 0,
    ensures
        BlockchainDB::pointer(lookup(after.extra(), cbor_u64(index))) == Some(hash),
        BlockchainDB::pointer(lookup(after.extra(), KEY_LAST_HASH@)) == Some(hash),
        lookup(after.header_db.entries(), hash) == Some(header_bytes),
        lookup(after.body_db.entries(), hash) == Some(body_bytes),
{
    assert(cbor_u64(index).len() <= 9);
    assert(KEY_LAST_HASH@.len() == 11);
    assert(cbor_u64(index) != KEY_LAST_HASH@);
}

/// The view of an optional hash.
pub open spec fn hash_view(hash: Option<Hash256>) -> Option<Seq<u8>> {
    match hash {
        Some(h) => Some(h@),
        None => None,
    }
}

/// Whether a result is the error with the given text.
pub open spec fn fails_with<T>(res: Result<T>, text: Seq<char>) -> bool {
    match res {
        Ok(_) => false,
        Err(e) => e.message@ == text,
    }
}

/// The hash that a pointer read from the `extra` column stands for: the
/// bytes, where there are 32 of them.
pub fn pointer_of(stored: Option<Vec<u8>>) -> (hash: Option<Hash256>)
    ensures
        hash_view(hash) == BlockchainDB::pointer(bytes_view(stored)),
{
    match stored {
        Some(bytes) => {
            if bytes.len() == 32 {
                Some(hash_from_bytes(&bytes))
            } else {
                None
            }
        },
        None => None,
    }
}

/// The hash of a block, given what the `extra` column holds under its
/// encoded index: the pointer, or the error "block index not found"
/// where there is none.
pub fn hash_at(stored: Option<Vec<u8>>) -> (res: Result<Hash256>)
    ensures
        match BlockchainDB::pointer(bytes_view(stored)) {
            Some(h) => res is Ok && res.unwrap()@ == h,
            None => fails_with(res, "block index not found"@),
        },
{
    match pointer_of(stored) {
        Some(hash) => Ok(hash),
        None => Err(BlockchainError { message: "block index not found".to_owned() }),
    }
}

/// The header and the body of a block, given what the two tries hold
/// under its hash: both, or the error "block not found" where one of
/// them is not there.
pub fn block_parts(header: Option<Vec<u8>>, body: Option<Vec<u8>>) -> (res: Result<
    (Vec<u8>, Vec<u8>),
>)
    ensures
        header is Some && body is Some ==> res == Ok::<(Vec<u8>, Vec<u8>), BlockchainError>(
            (header.unwrap(), body.unwrap()),
        ),
        header is None || body is None ==> fails_with(res, "block not found"@),
{
    match (header, body) {
        (Some(header), Some(body)) => Ok((header, body)),
        _ => Err(BlockchainError { message: "block not found".to_owned() }),
    }
}

/// The hash of the block packed last, if any was: [`pointer_of`] what the
/// `extra` column holds under [`KEY_LAST_HASH`]. It fails where the read
/// fails, and where the handle does not hold the named entries of the
/// `extra` column.
pub fn get_latest_hash(db: &Backend) -> (res: Result<Option<Hash256>>)
    ensures
        res matches Ok(hash) ==> hash_view(hash) == BlockchainDB::pointer(
            lookup(db.column(COL_EXTRA), KEY_LAST_HASH@),
        ),
        !db.holds_named(COL_EXTRA) ==> res is Err,
{
    match db.read(COL_EXTRA, KEY_LAST_HASH.as_slice()) {
        Ok(stored) => Ok(pointer_of(stored)),
        Err(e) => Err(BlockchainError::from_database(e)),
    }
}

} // verus!
