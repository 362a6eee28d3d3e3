//! The tries of the node state machine.
//!
//! Nodes and activations are recorded in a lasting trie each, and in a
//! scratch trie each, which starts empty with every block. A record
//! stands under the Keccak-256 of its encoding.

use super::error::{NodeError, Result};
use crate::database::db::{Backend, COL_NODE_LIST, COL_NODE_LIST_ACTIVATED};
use crate::database::error::DatabaseError;
use crate::database::keccak::keccak256;
use crate::database::trie::{no_entries, with_entry, NodeStore};
use crate::database::{open_column, AppDB};
use vstd::prelude::*;

verus! {

pub struct NodeDB {
    pub db: Backend,
    pub node_db: AppDB,
    pub node_active_db: AppDB,
    pub temp_node_db: AppDB,
    pub temp_node_active_db: AppDB,
}

/// The error of the node state machine for a failure of the store, with the same text.
pub fn store_failed(cause: DatabaseError) -> (e: NodeError)
    ensures
        e.message == cause.message,
{
    NodeError { message: cause.message }
}

/// The lasting trie of a column, which keeps its root through a handle
/// that `db` parts with the column for.
fn open(db: &mut Backend, column: u32, store: NodeStore) -> (res: Result<AppDB>)
    ensures
        res matches Ok(trie) ==> trie.as_opened() && trie.column() == Some(column),
        !old(db).holds_named(column) ==> res is Err,
        forall|c: u32|
            c != column ==> #[trigger] final(db).holds_named(c) == old(db).holds_named(c),
{
    match open_column(db, column, store) {
        Ok(trie) => Ok(trie),
        Err(e) => Err(store_failed(e)),
    }
}

impl NodeDB {
    /// The tries over the backend: the lasting tries under the roots that
    /// their columns keep, the scratch tries empty. Each trie has a node
    /// store of its own. The handle is to hold the named entries of the
    /// columns of the nodes and of the activations: it parts with them,
    /// and each lasting trie keeps its root through a handle of its own.
    pub fn new(
        db: Backend,
        node_store: NodeStore,
        node_active_store: NodeStore,
        temp_node_store: NodeStore,
        temp_node_active_store: NodeStore,
    ) -> (res: Result<Self>)
        ensures
            res matches Ok(tries) ==> tries.temp_node_db.entries() == no_entries()
                && tries.temp_node_active_db.entries() == no_entries()
                && tries.temp_node_db.wf() && tries.temp_node_active_db.wf(),
            res matches Ok(tries) ==> tries.node_db.as_opened()
                && tries.node_active_db.as_opened(),
            res matches Ok(tries) ==> tries.node_db.column() == Some(COL_NODE_LIST)
                && tries.node_active_db.column() == Some(COL_NODE_LIST_ACTIVATED)
                && tries.temp_node_db.column() is None && tries.temp_node_active_db.column() is None,
            !db.holds_named(COL_NODE_LIST) || !db.holds_named(COL_NODE_LIST_ACTIVATED)
                ==> res is Err,
    {
        let mut db = db;
        let node_db = match open(&mut db, COL_NODE_LIST, node_store) {
            Ok(trie) => trie,
            Err(e) => {
                return Err(e);
            },
        };
        let node_active_db = match open(&mut db, COL_NODE_LIST_ACTIVATED, node_active_store) {
            Ok(trie) => trie,
            Err(e) => {
                return Err(e);
            },
        };
        let temp_node_db = AppDB::empty(temp_node_store);
        let temp_node_active_db = AppDB::empty(temp_node_active_store);
        Ok(NodeDB { db, node_db, node_active_db, temp_node_db, temp_node_active_db })
    }

    /// Records a node, given its encoding, in the lasting and in the
    /// scratch trie of the nodes; the lasting trie keeps its root in its
    /// column. Where a later step fails, the earlier ones stand.
    pub fn insert_node(&mut self, node_bytes: &[u8]) -> (res: Result<()>)
        requires
            node_bytes@.len() <= u32::MAX,
        ensures
            final(self).db == old(self).db,
            final(self).node_active_db == old(self).node_active_db,
            final(self).temp_node_active_db == old(self).temp_node_active_db,
            final(self).node_db.lasting() == old(self).node_db.lasting(),
            final(self).node_db.column() == old(self).node_db.column(),
            final(self).temp_node_db.column() == old(self).temp_node_db.column(),
            res is Ok ==> {
                &&& final(self).node_db.entries() == with_entry(
                    old(self).node_db.entries(),
                    keccak256(node_bytes@),
                    node_bytes@,
                )
                &&& final(self).temp_node_db.entries() == with_entry(
                    old(self).temp_node_db.entries(),
                    keccak256(node_bytes@),
                    node_bytes@,
                )
                &&& old(self).node_db.wf() ==> final(self).node_db.wf()
                &&& old(self).temp_node_db.wf() ==> final(self).temp_node_db.wf()
                &&& final(self).node_db.keeps_root()
            },
    {
        match self.node_db.insert_record(node_bytes) {
            Ok(()) => {},
            Err(e) => {
                return Err(store_failed(e));
            },
        }
        match self.temp_node_db.insert_record(node_bytes) {
            Ok(()) => Ok(()),
            Err(e) => Err(store_failed(e)),
        }
    }

    /// Records a signed activation, given its encoding, in the lasting and
    /// in the scratch trie of the activations; the lasting trie keeps its
    /// root in its column. Where a later step fails, the earlier ones
    /// stand.
    pub fn insert_node_activation(&mut self, node_activation_bytes: &[u8]) -> (res: Result<()>)
        requires
            node_activation_bytes@.len() <= u32::MAX,
        ensures
            final(self).db == old(self).db,
            final(self).node_db == old(self).node_db,
            final(self).temp_node_db == old(self).temp_node_db,
            final(self).node_active_db.lasting() == old(self).node_active_db.lasting(),
            final(self).node_active_db.column() == old(self).node_active_db.column(),
            final(self).temp_node_active_db.column() == old(self).temp_node_active_db.column(),
            res is Ok ==> {
                &&& final(self).node_active_db.entries() == with_entry(
                    old(self).node_active_db.entries(),
                    keccak256(node_activation_bytes@),
                    node_activation_bytes@,
                )
                &&& final(self).temp_node_active_db.entries() == with_entry(
                    old(self).temp_node_active_db.entries(),
                    keccak256(node_activation_bytes@),
                    node_activation_bytes@,
                )
                &&& old(self).node_active_db.wf() ==> final(self).node_active_db.wf()
                &&& old(self).temp_node_active_db.wf() ==> final(self).temp_node_active_db.wf()
                &&& final(self).node_active_db.keeps_root()
            },
    {
        match self.node_active_db.insert_record(node_activation_bytes) {
            Ok(()) => {},
            Err(e) => {
                return Err(store_failed(e));
            },
        }
        match self.temp_node_active_db.insert_record(node_activation_bytes) {
            Ok(()) => Ok(()),
            Err(e) => Err(store_failed(e)),
        }
    }

    /// Starts the scratch tries empty again: to be called after a block
    /// was packed, so that their roots tell what the next block adds.
    pub fn reset_temp_db(&mut self) -> (res: Result<()>)
        ensures
            res is Ok,
            final(self).db == old(self).db,
            final(self).node_db == old(self).node_db,
            final(self).node_active_db == old(self).node_active_db,
            final(self).temp_node_db.entries() == no_entries(),
            final(self).temp_node_active_db.entries() == no_entries(),
            final(self).temp_node_db.root() == keccak256(seq![0u8]),
            final(self).temp_node_active_db.root() == keccak256(seq![0u8]),
    {
        self.temp_node_db.reset();
        self.temp_node_active_db.reset();
        Ok(())
    }
}

} // verus!
