//! The key-value backend and the view of one of its columns.
//!
//! The store is any `kvdb::KeyValueDB`. A column of it holds two kinds of
//! entries: the nodes of tries, under keys of 32 bytes and more (each ends
//! in a hash), and named entries under shorter keys. A [`Backend`] is a
//! handle to the store that holds some columns, for their named entries,
//! their nodes, or both. What it holds no other handle holds: handles part
//! with columns when they hand them on, and a handle reads and writes only
//! what it holds. So what [`Backend::column`] says of a column is what
//! reads through that handle return. A [`DB`] is a handle seen through one
//! column; it is the store of a trie's nodes, each under its hash behind
//! the path that leads to it.

use super::error::{DatabaseError, Result};
use super::keccak::{keccak256, keccak_hash, Hash256};
use kvdb::{DBTransaction, KeyValueDB};
use std::sync::Arc;
use vstd::prelude::*;
use vstd::slice::slice_to_vec;

verus! {

// Database column indexes.
pub const COL_EXTRA: u32 = 0;

pub const COL_ACCOUNT: u32 = 1;

pub const COL_BLOCK_HEADERS: u32 = 2;

pub const COL_BLOCK_BODIES: u32 = 3;

pub const COL_NODE_LIST: u32 = 4;

pub const COL_NODE_LIST_ACTIVATED: u32 = 5;

pub const COL_TASK_LIST: u32 = 6;

pub const COL_TASK_RESULT: u32 = 7;

pub const COL_TASK_OPERATIONS: u32 = 8;

pub const NUM_COLUMNS: u32 = 9;

/// The length from which on a key is the key of a trie node.
pub const NODE_KEY_LENGTH: usize = 32;

/// A batch of writes of `kvdb`, carried through as an opaque value.
#[verifier::external_type_specification]
#[verifier::external_body]
pub struct ExDBTransaction(kvdb::DBTransaction);

/// A key-value store of `kvdb`, carried as an opaque value.
#[verifier::external_body]
pub struct Store {
    inner: Arc<dyn KeyValueDB>,
}

/// A handle to a store, with the columns that it holds: `named[c]` says
/// that it holds the named entries of column `c`, `nodes[c]` that it
/// holds the trie nodes of column `c`.
pub struct Backend {
    store: Store,
    named: Vec<bool>,
    nodes: Vec<bool>,
}

/// One write of a batch: the column, the key, and the value to put there,
/// or `None` to delete the key.
pub type WriteOp = (u32, Seq<u8>, Option<Seq<u8>>);

/// What column `column` maps keys to, as the handle that holds the
/// entries has read and written it.
pub uninterp spec fn kv_column(store: Store, column: u32) -> Map<Seq<u8>, Seq<u8>>;

/// The columns that a store has: those that it answers reads of.
pub uninterp spec fn store_columns(store: Store) -> Set<u32>;

/// The writes of a batch, in the order in which they were added.
pub uninterp spec fn batch_ops(batch: DBTransaction) -> Seq<WriteOp>;

/// What a column holds after the writes `ops` were applied to `entries`, in order.
pub open spec fn apply_ops(ops: Seq<WriteOp>, column: u32, entries: Map<Seq<u8>, Seq<u8>>) -> Map<
    Seq<u8>,
    Seq<u8>,
>
    decreases ops.len(),
{
    if ops.len() == 0 {
        entries
    } else {
        let before = apply_ops(ops.drop_last(), column, entries);
        let op = ops.last();
        if op.0 != column {
            before
        } else {
            match op.2 {
                Some(value) => before.insert(op.1, value),
                None => before.remove(op.1),
            }
        }
    }
}

/// What a map holds under a key, if anything.
pub open spec fn lookup(entries: Map<Seq<u8>, Seq<u8>>, key: Seq<u8>) -> Option<Seq<u8>> {
    if entries.contains_key(key) {
        Some(entries[key])
    } else {
        None
    }
}

/// The view of an optional byte string.
pub open spec fn bytes_view(value: Option<Vec<u8>>) -> Option<Seq<u8>> {
    match value {
        Some(v) => Some(v@),
        None => None,
    }
}

/// `DBTransaction::new` gives an empty batch.
pub assume_specification[ kvdb::DBTransaction::new ]() -> (batch: DBTransaction)
    ensures
        batch_ops(batch) == Seq::<WriteOp>::empty(),
;

/// `DBTransaction::put` adds one write of a value to the end of the batch.
pub assume_specification[ kvdb::DBTransaction::put ](
    batch: &mut DBTransaction,
    col: u32,
    key: &[u8],
    value: &[u8],
)
    ensures
        batch_ops(*final(batch)) == batch_ops(*old(batch)).push((col, key@, Some(value@))),
;

/// `DBTransaction::delete` adds one deletion to the end of the batch.
pub assume_specification[ kvdb::DBTransaction::delete ](
    batch: &mut DBTransaction,
    col: u32,
    key: &[u8],
)
    ensures
        batch_ops(*final(batch)) == batch_ops(*old(batch)).push((col, key@, None)),
;

impl Store {
    /// Takes a store of `kvdb` into an opaque value. Nothing is claimed of
    /// what it holds. What is claimed of handles to it holds where nothing
    /// else reaches the store.
    #[verifier::external_body]
    pub fn new<D: KeyValueDB + 'static>(store: D) -> Store {
        Store { inner: Arc::new(store) }
    }
}

/// Clones the `Arc` around the store. The contract claims that the
/// result has the columns that the store has, and nothing of what they hold.
#[verifier::external_body]
fn store_share(store: &Store) -> (other: Store)
    ensures
        store_columns(other) == store_columns(*store),
{
    Store { inner: store.inner.clone() }
}

/// Calls `KeyValueDB::get` with the empty key, to learn whether the store
/// has a column. The contract claims that a store that answers the read
/// has the column: the stores of `kvdb` fail a read of a column that they
/// lack.
#[verifier::external_body]
fn store_probe(store: &Store, column: u32) -> (found: bool)
    ensures
        found ==> store_columns(*store).contains(column),
{
    store.inner.get(column, &[]).is_ok()
}

/// Calls `KeyValueDB::get`, for a column and a key that the handle holds.
/// The contract claims that a successful read returns what the column
/// holds under the key.
#[verifier::external_body]
fn store_get(backend: &Backend, column: u32, key: &[u8]) -> (res: std::result::Result<
    Option<Vec<u8>>,
    std::io::Error,
>)
    requires
        backend.may(column, key@),
    ensures
        res matches Ok(value) ==> bytes_view(value) == lookup(
            kv_column(backend.store, column),
            key@,
        ),
{
    backend.store.inner.get(column, key)
}

/// Calls `KeyValueDB::has_key`, for a column and a key that the handle
/// holds. The contract claims that a successful check tells whether the
/// column holds the key.
#[verifier::external_body]
fn store_has_key(backend: &Backend, column: u32, key: &[u8]) -> (res: std::result::Result<
    bool,
    std::io::Error,
>)
    requires
        backend.may(column, key@),
    ensures
        res matches Ok(found) ==> found == kv_column(backend.store, column).contains_key(key@),
{
    backend.store.inner.has_key(column, key)
}

/// Calls `KeyValueDB::iter`, for a column that the store has and whose
/// entries of both kinds the handle holds, and gathers what it hands out.
/// The contract claims that each pair handed out is a key of the column
/// with what the column holds under it; it does not claim that every key
/// is handed out.
#[verifier::external_body]
fn store_iter(backend: &Backend, column: u32) -> (pairs: Vec<(Vec<u8>, Vec<u8>)>)
    requires
        backend.holds_named(column),
        backend.holds_nodes(column),
        store_columns(backend.store).contains(column),
    ensures
        forall|i: int|
            0 <= i < pairs@.len() ==> lookup(
                kv_column(backend.store, column),
                (#[trigger] pairs@[i]).0@,
            ) == Some(pairs@[i].1@),
{
    backend.store.inner.iter(column).map(|(k, v)| (k.into_vec(), v.into_vec())).collect()
}

/// Calls `KeyValueDB::write`, with a batch whose every write is to a
/// column that the store has, and to a column and a key that the handle
/// holds. The contract claims that a successful write has applied every
/// write of the batch, in order, and that the handle holds what it held,
/// in a store with the columns it had; of what the store holds after a
/// failed write it claims nothing.
#[verifier::external_body]
fn store_write(backend: &mut Backend, batch: DBTransaction) -> (res: std::result::Result<
    (),
    std::io::Error,
>)
    requires
        forall|i: int|
            0 <= i < batch_ops(batch).len() ==> old(backend).may(
                (#[trigger] batch_ops(batch)[i]).0,
                batch_ops(batch)[i].1,
            ) && store_columns(old(backend).store).contains(batch_ops(batch)[i].0),
    ensures
        final(backend).named == old(backend).named,
        final(backend).nodes == old(backend).nodes,
        store_columns(final(backend).store) == store_columns(old(backend).store),
        res is Ok ==> forall|column: u32| #[trigger]
            kv_column(final(backend).store, column) == apply_ops(
                batch_ops(batch),
                column,
                kv_column(old(backend).store, column),
            ),
{
    backend.store.inner.write(batch)
}

/// A list of `count` flags, each `flag`.
fn flags(count: u32, flag: bool) -> (list: Vec<bool>)
    ensures
        list@.len() == count,
        forall|i: int| 0 <= i < count ==> list@[i] == flag,
{
    let mut list: Vec<bool> = Vec::new();
    let mut i: u32 = 0;
    while i < count
        invariant
            i <= count,
            list@.len() == i,
            forall|j: int| 0 <= j < i ==> list@[j] == flag,
        decreases count - i,
    {
        list.push(flag);
        i += 1;
    }
    list
}

impl Backend {
    /// What the handle's store maps the keys of a column to.
    pub closed spec fn column(&self, column: u32) -> Map<Seq<u8>, Seq<u8>> {
        kv_column(self.store, column)
    }

    /// How many columns the handle knows of.
    pub closed spec fn columns(&self) -> nat {
        self.named@.len()
    }

    /// The store has every column that the handle knows of.
    #[verifier::type_invariant]
    spec fn inv(self) -> bool {
        &&& self.named@.len() <= u32::MAX
        &&& self.nodes@.len() <= u32::MAX
        &&& forall|c: u32|
            c < self.named@.len() || c < self.nodes@.len() ==> #[trigger] store_columns(
                self.store,
            ).contains(c)
    }

    /// Whether the handle holds the named entries of a column.
    pub closed spec fn holds_named(&self, column: u32) -> bool {
        column < self.named@.len() && self.named@[column as int]
    }

    /// Whether the handle holds the trie nodes of a column.
    pub closed spec fn holds_nodes(&self, column: u32) -> bool {
        column < self.nodes@.len() && self.nodes@[column as int]
    }

    /// Whether the handle may read and write a key of a column: it holds
    /// the kind of entry that the key is of.
    pub open spec fn may(&self, column: u32, key: Seq<u8>) -> bool {
        if key.len() < NODE_KEY_LENGTH {
            self.holds_named(column)
        } else {
            self.holds_nodes(column)
        }
    }

    /// Whether the handle holds the named entries of each of some columns.
    pub open spec fn holds_each(&self, columns: Seq<u32>) -> bool {
        forall|i: int| 0 <= i < columns.len() ==> self.holds_named(#[trigger] columns[i])
    }

    /// The first handle to a store, which holds all of its columns.
    /// `columns` is the number of columns that the store was opened with:
    /// each of them is read once, and a store that does not answer for
    /// one of them is refused.
    pub fn new(store: Store, columns: u32) -> (res: Option<Backend>)
        ensures
            columns == 0 ==> res is Some,
            res matches Some(backend) ==> backend.columns() == columns && forall|c: u32|
                c < columns ==> #[trigger] backend.holds_named(c) && backend.holds_nodes(c),
    {
        let mut c: u32 = 0;
        while c < columns
            invariant
                c <= columns,
                forall|d: u32| d < c ==> #[trigger] store_columns(store).contains(d),
            decreases columns - c,
        {
            if !store_probe(&store, c) {
                return None;
            }
            c += 1;
        }
        Some(Backend { store, named: flags(columns, true), nodes: flags(columns, true) })
    }

    /// Whether the handle holds the named entries of a column.
    pub fn has_named(&self, column: u32) -> (held: bool)
        ensures
            held == self.holds_named(column),
    {
        (column as usize) < self.named.len() && self.named[column as usize]
    }

    /// Whether the handle holds the trie nodes of a column.
    pub fn has_nodes(&self, column: u32) -> (held: bool)
        ensures
            held == self.holds_nodes(column),
    {
        (column as usize) < self.nodes.len() && self.nodes[column as usize]
    }

    /// Whether the handle may read and write a key of a column.
    pub fn allows(&self, column: u32, key: &[u8]) -> (allowed: bool)
        ensures
            allowed == self.may(column, key@),
    {
        if key.len() < NODE_KEY_LENGTH {
            self.has_named(column)
        } else {
            self.has_nodes(column)
        }
    }

    /// Holds the named entries of a column no longer.
    fn drop_named(&mut self, column: u32)
        requires
            old(self).holds_named(column),
        ensures
            final(self).store == old(self).store,
            final(self).nodes == old(self).nodes,
            final(self).named@ == old(self).named@.update(column as int, false),
    {
        proof {
            use_type_invariant(&*self);
        }
        let mut own: Vec<bool> = Vec::new();
        std::mem::swap(&mut own, &mut self.named);
        own.set(column as usize, false);
        self.named = own;
    }

    /// Parts with the named entries of a column: a new handle holds them,
    /// and nothing else; this one holds them no longer. `None`, and
    /// nothing changes, where this handle does not hold them.
    pub fn take_named(&mut self, column: u32) -> (res: Option<Backend>)
        ensures
            final(self).columns() == old(self).columns(),
            res is Some == old(self).holds_named(column),
            res is None ==> *final(self) == *old(self),
            forall|c: u32| #[trigger] final(self).holds_nodes(c) == old(self).holds_nodes(c),
            forall|c: u32| #[trigger] final(self).column(c) == old(self).column(c),
            forall|c: u32| #[trigger]
                final(self).holds_named(c) == (old(self).holds_named(c) && c != column),
            res matches Some(other) ==> other.columns() == old(self).columns() && forall|c: u32|
                #![trigger other.holds_named(c)]
                #![trigger other.holds_nodes(c)]
                other.holds_named(c) == (c == column) && !other.holds_nodes(c),
    {
        proof {
            use_type_invariant(&*self);
        }
        if !self.has_named(column) {
            return None;
        }
        let count: u32 = self.named.len() as u32;
        let mut named = flags(count, false);
        named.set(column as usize, true);
        self.drop_named(column);
        Some(Backend { store: store_share(&self.store), named, nodes: flags(count, false) })
    }

    /// Parts with the trie nodes of a column: a new handle holds them,
    /// and nothing else; this one holds them no longer. `None`, and
    /// nothing changes, where this handle does not hold them.
    pub fn take_nodes(&mut self, column: u32) -> (res: Option<Backend>)
        ensures
            final(self).columns() == old(self).columns(),
            res is Some == old(self).holds_nodes(column),
            res is None ==> *final(self) == *old(self),
            forall|c: u32| #[trigger] final(self).holds_named(c) == old(self).holds_named(c),
            forall|c: u32| #[trigger] final(self).column(c) == old(self).column(c),
            forall|c: u32| #[trigger]
                final(self).holds_nodes(c) == (old(self).holds_nodes(c) && c != column),
            res matches Some(other) ==> other.columns() == old(self).columns() && forall|c: u32|
                #![trigger other.holds_named(c)]
                #![trigger other.holds_nodes(c)]
                other.holds_nodes(c) == (c == column) && !other.holds_named(c),
    {
        proof {
            use_type_invariant(&*self);
        }
        if !self.has_nodes(column) {
            return None;
        }
        let count: u32 = self.nodes.len() as u32;
        let mut nodes = flags(count, false);
        nodes.set(column as usize, true);
        let mut own: Vec<bool> = Vec::new();
        std::mem::swap(&mut own, &mut self.nodes);
        own.set(column as usize, false);
        self.nodes = own;
        let named = flags(self.named.len() as u32, false);
        Some(Backend { store: store_share(&self.store), named, nodes })
    }

    /// Takes the named entries of a column over from another handle to
    /// the same store, which then holds them no longer. Returns whether
    /// the other handle held them. Nothing is claimed of what the columns
    /// of this handle hold afterwards: it has yet to read them.
    pub fn join_named(&mut self, other: &mut Backend, column: u32) -> (moved: bool)
        ensures
            final(self).columns() == old(self).columns(),
            final(other).columns() == old(other).columns(),
            moved == (old(other).holds_named(column) && column < old(self).columns()),
            !moved ==> *final(self) == *old(self) && *final(other) == *old(other),
            forall|c: u32| #[trigger] final(self).holds_nodes(c) == old(self).holds_nodes(c),
            forall|c: u32| #[trigger] final(other).holds_nodes(c) == old(other).holds_nodes(c),
            forall|c: u32| #[trigger] final(other).column(c) == old(other).column(c),
            forall|c: u32| #[trigger]
                final(self).holds_named(c) == (old(self).holds_named(c) || (moved && c == column)),
            forall|c: u32| #[trigger]
                final(other).holds_named(c) == (old(other).holds_named(c) && !(moved && c
                    == column)),
    {
        proof {
            use_type_invariant(&*self);
            use_type_invariant(&*other);
        }
        if !other.has_named(column) || column as usize >= self.named.len() {
            return false;
        }
        other.drop_named(column);
        let mut own: Vec<bool> = Vec::new();
        std::mem::swap(&mut own, &mut self.named);
        own.set(column as usize, true);
        self.named = own;
        self.store = store_share(&self.store);
        true
    }

    /// Reads what a column holds under a key. A column or a kind of key
    /// that the handle does not hold is refused.
    pub fn read(&self, column: u32, key: &[u8]) -> (res: Result<Option<Vec<u8>>>)
        ensures
            !self.may(column, key@) ==> refused(res),
            res matches Ok(value) ==> bytes_view(value) == lookup(self.column(column), key@),
    {
        if !self.allows(column, key) {
            return Err(not_held());
        }
        match store_get(self, column, key) {
            Ok(value) => Ok(value),
            Err(e) => Err(DatabaseError::from_io(&e)),
        }
    }

    /// Whether a column holds a key. A column or a kind of key that the
    /// handle does not hold is refused.
    pub fn has_key(&self, column: u32, key: &[u8]) -> (res: Result<bool>)
        ensures
            !self.may(column, key@) ==> refused(res),
            res matches Ok(found) ==> found == self.column(column).contains_key(key@),
    {
        if !self.allows(column, key) {
            return Err(not_held());
        }
        match store_has_key(self, column, key) {
            Ok(found) => Ok(found),
            Err(e) => Err(DatabaseError::from_io(&e)),
        }
    }

    /// Goes through a column: the keys that the store hands out, each
    /// with what the column holds under it. A column whose entries of both
    /// kinds the handle does not hold is refused.
    pub fn entries(&self, column: u32) -> (res: Result<Vec<(Vec<u8>, Vec<u8>)>>)
        ensures
            res is Ok == (self.holds_named(column) && self.holds_nodes(column)),
            res is Err ==> refused(res),
            res matches Ok(pairs) ==> forall|i: int|
                0 <= i < pairs@.len() ==> lookup(self.column(column), (#[trigger] pairs@[i]).0@)
                    == Some(pairs@[i].1@),
    {
        proof {
            use_type_invariant(self);
        }
        if !self.has_named(column) || !self.has_nodes(column) {
            return Err(not_held());
        }
        Ok(store_iter(self, column))
    }

    /// Puts `value` under `key` in a column, or deletes the key where
    /// `value` is `None`, in a batch of its own. A column or a kind of key
    /// that the handle does not hold is refused, and nothing is written.
    pub fn write_one(&mut self, column: u32, key: &[u8], value: Option<&[u8]>) -> (res: Result<()>)
        ensures
            forall|c: u32| #[trigger]
                final(self).holds_named(c) == old(self).holds_named(c) && final(self).holds_nodes(
                    c,
                ) == old(self).holds_nodes(c),
            final(self).columns() == old(self).columns(),
            !old(self).may(column, key@) ==> *final(self) == *old(self) && refused(res),
            res is Ok ==> forall|c: u32| #[trigger]
                final(self).column(c) == apply_op(
                    (column, key@, slice_view(value)),
                    c,
                    old(self).column(c),
                ),
    {
        proof {
            use_type_invariant(&*self);
        }
        if !self.allows(column, key) {
            return Err(not_held());
        }
        let mut tx = DBTransaction::new();
        let ghost none = batch_ops(tx);
        match value {
            Some(bytes) => tx.put(column, key, bytes),
            None => tx.delete(column, key),
        }
        proof {
            assert forall|c: u32|
                apply_ops(batch_ops(tx), c, #[trigger] self.column(c)) == apply_op(
                    (column, key@, slice_view(value)),
                    c,
                    self.column(c),
                ) by {
                lemma_apply_push(none, (column, key@, slice_view(value)), c, self.column(c));
            }
        }
        match store_write(self, tx) {
            Ok(()) => Ok(()),
            Err(e) => Err(DatabaseError::from_io(&e)),
        }
    }

    /// Applies a batch of writes of named entries. `columns` names the
    /// columns that the batch writes to: where the handle does not hold
    /// the named entries of each, the batch is refused and nothing is
    /// written.
    pub fn write(&mut self, batch: DBTransaction, columns: &[u32]) -> (res: Result<()>)
        requires
            forall|i: int|
                0 <= i < batch_ops(batch).len() ==> (#[trigger] batch_ops(batch)[i]).1.len()
                    < NODE_KEY_LENGTH && columns@.contains(batch_ops(batch)[i].0),
        ensures
            forall|c: u32| #[trigger]
                final(self).holds_named(c) == old(self).holds_named(c) && final(self).holds_nodes(
                    c,
                ) == old(self).holds_nodes(c),
            final(self).columns() == old(self).columns(),
            !old(self).holds_each(columns@) ==> *final(self) == *old(self) && refused(res),
            res is Ok ==> forall|c: u32| #[trigger]
                final(self).column(c) == apply_ops(batch_ops(batch), c, old(self).column(c)),
    {
        proof {
            use_type_invariant(&*self);
        }
        let mut i: usize = 0;
        while i < columns.len()
            invariant
                i <= columns.len(),
                forall|j: int| 0 <= j < i ==> self.holds_named(#[trigger] columns@[j]),
            decreases columns.len() - i,
        {
            if !self.has_named(columns[i]) {
                return Err(not_held());
            }
            i += 1;
        }
        match store_write(self, batch) {
            Ok(()) => Ok(()),
            Err(e) => Err(DatabaseError::from_io(&e)),
        }
    }
}

/// The text of the error for a column or a kind of key that a handle does not hold.
pub open spec fn not_held_text() -> Seq<char> {
    "the handle does not hold the column"@
}

/// Whether a result is the refusal of a column or a kind of key that a
/// handle does not hold.
pub open spec fn refused<T>(res: Result<T>) -> bool {
    match res {
        Ok(_) => false,
        Err(e) => e.message@ == not_held_text(),
    }
}

/// The error for a column or a kind of key that a handle does not hold.
pub fn not_held() -> (e: DatabaseError)
    ensures
        e.message@ == not_held_text(),
{
    DatabaseError::new("the handle does not hold the column".to_owned())
}

/// The view of an optional slice.
pub open spec fn slice_view(value: Option<&[u8]>) -> Option<Seq<u8>> {
    match value {
        Some(v) => Some(v@),
        None => None,
    }
}

/// The path to a trie node: the bytes of whole nibble pairs, and the last
/// nibble where their number is odd.
pub type Prefix<'a> = (&'a [u8], Option<u8>);

/// The key of a trie node in its column.
pub open spec fn prefixed_key_bytes(key: Seq<u8>, path: Seq<u8>, last: Option<u8>) -> Seq<u8> {
    match last {
        Some(nibble) => path.push(nibble) + key,
        None => path + key,
    }
}

/// Derive a database key from hash value of the node (key) and the node prefix.
pub fn prefixed_key(key: &Hash256, prefix: Prefix) -> (out: Vec<u8>)
    ensures
        out@ == prefixed_key_bytes(key@, prefix.0@, prefix.1),
{
    let mut prefixed_key: Vec<u8> = Vec::new();
    prefixed_key.extend_from_slice(prefix.0);
    if let Some(last) = prefix.1 {
        prefixed_key.push(last);
    }
    prefixed_key.extend_from_slice(key.as_slice());
    assert(prefixed_key@ =~= prefixed_key_bytes(key@, prefix.0@, prefix.1));
    prefixed_key
}

/// One column of a store, seen through a handle that holds its trie nodes.
pub struct DB {
    pub data: Backend,
    column: u32,
    pub hashed_null_node: Hash256,
    null_node_data: [u8; 1],
}

impl DB {
    /// The column that the view is on.
    pub closed spec fn column(&self) -> u32 {
        self.column
    }

    /// The backend behind the view.
    pub closed spec fn backend(&self) -> Backend {
        self.data
    }

    /// What the column maps keys to.
    pub open spec fn entries(&self) -> Map<Seq<u8>, Seq<u8>> {
        self.backend().column(self.column())
    }

    /// The view knows the empty node and its hash.
    pub closed spec fn wf(&self) -> bool {
        &&& self.null_node_data@ == seq![0u8]
        &&& self.hashed_null_node@ == keccak256(seq![0u8])
    }

    /// The view of a column through a handle. A column whose trie nodes
    /// the handle does not hold is refused: one that the store lacks is
    /// held by no handle.
    pub fn new(data: Backend, column: u32) -> (res: Result<DB>)
        ensures
            data.holds_nodes(column) ==> {
                &&& res is Ok
                &&& res.unwrap().wf()
                &&& res.unwrap().backend() == data
                &&& res.unwrap().column() == column
            },
            !data.holds_nodes(column) ==> refused(res),
    {
        if !data.has_nodes(column) {
            return Err(not_held());
        }
        let null_node_data = [0u8];
        assert(null_node_data@ =~= seq![0u8]);
        let db = DB {
            data,
            column,
            hashed_null_node: keccak_hash(null_node_data.as_slice()),
            null_node_data,
        };
        Ok(db)
    }

    /// Reads what the column holds under `key`. A key of a kind that the
    /// handle does not hold is refused.
    pub fn get(&self, key: &[u8]) -> (res: Result<Option<Vec<u8>>>)
        ensures
            !self.backend().may(self.column(), key@) ==> refused(res),
            res matches Ok(value) ==> bytes_view(value) == lookup(self.entries(), key@),
    {
        self.data.read(self.column, key)
    }

    /// Puts `value` under `key`, in a batch of its own. A key of a kind
    /// that the handle does not hold is refused.
    pub fn set(&mut self, key: &[u8], value: &[u8]) -> (res: Result<()>)
        ensures
            final(self).column() == old(self).column(),
            final(self).wf() == old(self).wf(),
            !old(self).backend().may(old(self).column(), key@) ==> *final(self) == *old(self)
                && refused(res),
            res is Ok ==> final(self).entries() == old(self).entries().insert(key@, value@),
    {
        self.data.write_one(self.column, key, Some(value))
    }

    /// Deletes `key`, in a batch of its own. A key of a kind that the
    /// handle does not hold is refused.
    pub fn remove(&mut self, key: &[u8]) -> (res: Result<()>)
        ensures
            final(self).column() == old(self).column(),
            final(self).wf() == old(self).wf(),
            !old(self).backend().may(old(self).column(), key@) ==> *final(self) == *old(self)
                && refused(res),
            res is Ok ==> final(self).entries() == old(self).entries().remove(key@),
    {
        self.data.write_one(self.column, key, None)
    }

    /// What the node store answers for a node: the empty node for its own
    /// hash, else what the column holds under the node's key.
    pub open spec fn node(&self, key: Seq<u8>, path: Seq<u8>, last: Option<u8>) -> Option<Seq<u8>> {
        if key == keccak256(seq![0u8]) {
            Some(seq![0u8])
        } else {
            lookup(self.entries(), prefixed_key_bytes(key, path, last))
        }
    }

    /// Looks a trie node up by its hash and path. The empty node is always
    /// there; a node that cannot be read counts as absent.
    pub fn hash_get(&self, key: &Hash256, prefix: Prefix) -> (res: Option<Vec<u8>>)
        requires
            self.wf(),
        ensures
            res matches Some(value) ==> Some(value@) == self.node(key@, prefix.0@, prefix.1),
            key@ == keccak256(seq![0u8]) ==> res is Some,
    {
        if same_hash(key, &self.hashed_null_node) {
            let node = slice_to_vec(self.null_node_data.as_slice());
            return Some(node);
        }
        let key = prefixed_key(key, prefix);
        match self.data.read(self.column, key.as_slice()) {
            Ok(Some(value)) => Some(value),
            _ => None,
        }
    }

    /// Whether the store holds a trie node. A check that fails counts as `false`.
    pub fn contains(&self, key: &Hash256, prefix: Prefix) -> (res: bool)
        requires
            self.wf(),
        ensures
            res ==> self.node(key@, prefix.0@, prefix.1) is Some,
            key@ == keccak256(seq![0u8]) ==> res,
    {
        if same_hash(key, &self.hashed_null_node) {
            return true;
        }
        let key = prefixed_key(key, prefix);
        match self.data.has_key(self.column, key.as_slice()) {
            Ok(r) => r,
            _ => false,
        }
    }

    /// Stores a trie node under its hash and path. The empty node is never
    /// stored. Returns whether the store now answers for the node.
    pub fn emplace(&mut self, key: Hash256, prefix: Prefix, value: Vec<u8>) -> (stored: bool)
        requires
            old(self).wf(),
        ensures
            final(self).wf(),
            final(self).column() == old(self).column(),
            value@ == seq![0u8] ==> stored && final(self).entries() == old(self).entries(),
            value@ != seq![0u8] && stored ==> final(self).entries() == old(self).entries().insert(
                prefixed_key_bytes(key@, prefix.0@, prefix.1),
                value@,
            ),
    {
        if is_null_node(value.as_slice(), &self.null_node_data) {
            return true;
        }
        let key = prefixed_key(&key, prefix);
        self.set(key.as_slice(), value.as_slice()).is_ok()
    }

    /// Hashes a trie node and stores it with [`DB::emplace`], which says
    /// what the column then holds. Returns the hash. The empty node is
    /// never stored.
    pub fn insert(&mut self, prefix: Prefix, value: &[u8]) -> (key: Hash256)
        requires
            old(self).wf(),
        ensures
            final(self).wf(),
            final(self).column() == old(self).column(),
            key@ == keccak256(value@),
            value@ == seq![0u8] ==> final(self).entries() == old(self).entries(),
    {
        let key = keccak_hash(value);
        if is_null_node(value, &self.null_node_data) {
            return key;
        }
        let _ = self.emplace(key, prefix, slice_to_vec(value));
        key
    }

    /// Takes note that a trie no longer refers to a node. Nodes are never
    /// deleted: a trie that was committed before stays readable.
    pub fn hash_remove(&mut self, key: &Hash256, prefix: Prefix)
        ensures
            *final(self) == *old(self),
    {
    }
}

/// Whether two hashes are equal.
pub fn same_hash(a: &Hash256, b: &Hash256) -> (eq: bool)
    ensures
        eq == (a@ == b@),
{
    let mut i: usize = 0;
    while i < 32
        invariant
            i <= 32,
            forall|j: int| 0 <= j < i ==> a@[j] == b@[j],
        decreases 32 - i,
    {
        if a[i] != b[i] {
            return false;
        }
        i += 1;
    }
    assert(a@ =~= b@);
    true
}

/// Whether `value` is the encoding of the empty node.
fn is_null_node(value: &[u8], null_node_data: &[u8; 1]) -> (eq: bool)
    ensures
        eq == (value@ == null_node_data@),
{
    let eq = value.len() == 1 && value[0] == null_node_data[0];
    assert(eq == (value@ =~= null_node_data@));
    eq
}

/// What a column holds after one more write.
pub open spec fn apply_op(op: WriteOp, column: u32, entries: Map<Seq<u8>, Seq<u8>>) -> Map<
    Seq<u8>,
    Seq<u8>,
> {
    if op.0 != column {
        entries
    } else {
        match op.2 {
            Some(value) => entries.insert(op.1, value),
            None => entries.remove(op.1),
        }
    }
}

/// A batch with one more write at its end applies the batch, then the write.
pub proof fn lemma_apply_push(
    ops: Seq<WriteOp>,
    op: WriteOp,
    column: u32,
    entries: Map<Seq<u8>, Seq<u8>>,
)
    ensures
        apply_ops(ops.push(op), column, entries) == apply_op(
            op,
            column,
            apply_ops(ops, column, entries),
        ),
        apply_ops(Seq::<WriteOp>::empty(), column, entries) == entries,
{
    assert(ops.push(op).drop_last() =~= ops);
}

} // verus!
