//! The tries of the task state machine.
//!
//! Tasks are recorded in a lasting trie; task operations and task results
//! in a lasting trie each and in a scratch trie each, which starts empty
//! with every block. A record stands under the Keccak-256 of its encoding.

use super::error::{Result, TaskError};
use crate::database::db::{Backend, COL_TASK_LIST, COL_TASK_OPERATIONS, COL_TASK_RESULT};
use crate::database::error::DatabaseError;
use crate::database::keccak::keccak256;
use crate::database::trie::{no_entries, with_entry, NodeStore};
use crate::database::{open_column, AppDB};
use vstd::prelude::*;

verus! {

pub struct TaskDB {
    pub db: Backend,
    pub task_db: AppDB,
    pub task_operation_db: AppDB,
    pub task_result_db: AppDB,
    pub temp_task_operation_db: AppDB,
    pub temp_task_result_db: AppDB,
}

/// The node stores of the tries of the task state machine, one for each trie.
pub struct TaskStores {
    pub task: NodeStore,
    pub task_operation: NodeStore,
    pub task_result: NodeStore,
    pub temp_task_operation: NodeStore,
    pub temp_task_result: NodeStore,
}

/// The error of the task state machine for a failure of the store, with the same text.
pub fn store_failed(cause: DatabaseError) -> (e: TaskError)
    ensures
        e.message == cause.message,
{
    TaskError { message: cause.message }
}

/// The lasting trie of a column, under the root that the column keeps.
/// The trie keeps its root through a handle of its own, for which `db`
/// parts with the named entries of the column. It fails where `db` does
/// not hold them, and where the kept root cannot be read.
fn open(db: &mut Backend, column: u32, store: NodeStore) -> (res: Result<AppDB>)
    ensures
        res matches Ok(trie) ==> trie.as_opened() && trie.column() == Some(column),
        !old(db).holds_named(column) ==> res is Err,
        forall|c: u32|
            c != column ==> #[trigger] final(db).holds_named(c) == old(db).holds_named(c),
{
    match open_column(db, column, store) {
        Ok(trie) => Ok(trie),
        Err(e) => Err(store_failed(e)),
    }
}

impl TaskDB {
    /// The tries over the backend: the lasting tries under the roots that
    /// their columns keep, the scratch tries empty. The handle is to hold
    /// the named entries of the three columns: it parts with them, and
    /// each lasting trie keeps its root through a handle of its own.
    pub fn new(db: Backend, stores: TaskStores) -> (res: Result<Self>)
        ensures
            res matches Ok(tries) ==> tries.temp_task_operation_db.entries() == no_entries()
                && tries.temp_task_result_db.entries() == no_entries()
                && tries.temp_task_operation_db.wf() && tries.temp_task_result_db.wf(),
            res matches Ok(tries) ==> {
                &&& tries.task_db.as_opened()
                &&& tries.task_operation_db.as_opened()
                &&& tries.task_result_db.as_opened()
                &&& tries.task_db.column() == Some(COL_TASK_LIST)
                &&& tries.task_operation_db.column() == Some(COL_TASK_OPERATIONS)
                &&& tries.task_result_db.column() == Some(COL_TASK_RESULT)
                &&& tries.temp_task_operation_db.column() is None
                &&& tries.temp_task_result_db.column() is None
            },
            !db.holds_named(COL_TASK_LIST) || !db.holds_named(COL_TASK_OPERATIONS)
                || !db.holds_named(COL_TASK_RESULT) ==> res is Err,
    {
        let mut db = db;
        let task_db = match open(&mut db, COL_TASK_LIST, stores.task) {
            Ok(trie) => trie,
            Err(e) => {
                return Err(e);
            },
        };
        let task_operation_db = match open(&mut db, COL_TASK_OPERATIONS, stores.task_operation) {
            Ok(trie) => trie,
            Err(e) => {
                return Err(e);
            },
        };
        let task_result_db = match open(&mut db, COL_TASK_RESULT, stores.task_result) {
            Ok(trie) => trie,
            Err(e) => {
                return Err(e);
            },
        };
        let temp_task_operation_db = AppDB::empty(stores.temp_task_operation);
        let temp_task_result_db = AppDB::empty(stores.temp_task_result);
        Ok(
            TaskDB {
                db,
                task_db,
                task_operation_db,
                task_result_db,
                temp_task_operation_db,
                temp_task_result_db,
            },
        )
    }

    /// Records a task, given its encoding, in the trie of the tasks, which
    /// keeps its root in its column.
    pub fn insert_task(&mut self, task_bytes: &[u8]) -> (res: Result<()>)
        requires
            task_bytes@.len() <= u32::MAX,
        ensures
            final(self).db == old(self).db,
            final(self).task_operation_db == old(self).task_operation_db,
            final(self).temp_task_operation_db == old(self).temp_task_operation_db,
            final(self).task_result_db == old(self).task_result_db,
            final(self).temp_task_result_db == old(self).temp_task_result_db,
            final(self).task_db.lasting() == old(self).task_db.lasting(),
            final(self).task_db.column() == old(self).task_db.column(),
            res is Ok ==> {
                &&& final(self).task_db.entries() == with_entry(
                    old(self).task_db.entries(),
                    keccak256(task_bytes@),
                    task_bytes@,
                )
                &&& old(self).task_db.wf() ==> final(self).task_db.wf()
                &&& final(self).task_db.keeps_root()
            },
    {
        match self.task_db.insert_record(task_bytes) {
            Ok(()) => Ok(()),
            Err(e) => Err(store_failed(e)),
        }
    }

    /// Records a task operation, given its encoding, in the lasting and
    /// in the scratch trie of the operations. Where a later step fails,
    /// the earlier ones stand.
    pub fn insert_task_operation(&mut self, data_bytes: &[u8]) -> (res: Result<()>)
        requires
            data_bytes@.len() <= u32::MAX,
        ensures
            final(self).db == old(self).db,
            final(self).task_db == old(self).task_db,
            final(self).task_result_db == old(self).task_result_db,
            final(self).temp_task_result_db == old(self).temp_task_result_db,
            final(self).task_operation_db.lasting() == old(self).task_operation_db.lasting(),
            final(self).task_operation_db.column() == old(self).task_operation_db.column(),
            final(self).temp_task_operation_db.column() == old(
                self,
            ).temp_task_operation_db.column(),
            res is Ok ==> {
                &&& final(self).task_operation_db.entries() == with_entry(
                    old(self).task_operation_db.entries(),
                    keccak256(data_bytes@),
                    data_bytes@,
                )
                &&& final(self).temp_task_operation_db.entries() == with_entry(
                    old(self).temp_task_operation_db.entries(),
                    keccak256(data_bytes@),
                    data_bytes@,
                )
                &&& old(self).task_operation_db.wf() ==> final(self).task_operation_db.wf()
                &&& old(self).temp_task_operation_db.wf() ==> final(self).temp_task_operation_db.wf()
                &&& final(self).task_operation_db.keeps_root()
            },
    {
        match self.task_operation_db.insert_record(data_bytes) {
            Ok(()) => {},
            Err(e) => {
                return Err(store_failed(e));
            },
        }
        match self.temp_task_operation_db.insert_record(data_bytes) {
            Ok(()) => Ok(()),
            Err(e) => Err(store_failed(e)),
        }
    }

    /// Records a task result, given its encoding, in the lasting and in
    /// the scratch trie of the results. Where a later step fails, the
    /// earlier ones stand.
    pub fn insert_task_result(&mut self, data_bytes: &[u8]) -> (res: Result<()>)
        requires
            data_bytes@.len() <= u32::MAX,
        ensures
            final(self).db == old(self).db,
            final(self).task_db == old(self).task_db,
            final(self).task_operation_db == old(self).task_operation_db,
            final(self).temp_task_operation_db == old(self).temp_task_operation_db,
            final(self).task_result_db.lasting() == old(self).task_result_db.lasting(),
            final(self).task_result_db.column() == old(self).task_result_db.column(),
            final(self).temp_task_result_db.column() == old(self).temp_task_result_db.column(),
            res is Ok ==> {
                &&& final(self).task_result_db.entries() == with_entry(
                    old(self).task_result_db.entries(),
                    keccak256(data_bytes@),
                    data_bytes@,
                )
                &&& final(self).temp_task_result_db.entries() == with_entry(
                    old(self).temp_task_result_db.entries(),
                    keccak256(data_bytes@),
                    data_bytes@,
                )
                &&& old(self).task_result_db.wf() ==> final(self).task_result_db.wf()
                &&& old(self).temp_task_result_db.wf() ==> final(self).temp_task_result_db.wf()
                &&& final(self).task_result_db.keeps_root()
            },
    {
        match self.task_result_db.insert_record(data_bytes) {
            Ok(()) => {},
            Err(e) => {
                return Err(store_failed(e));
            },
        }
        match self.temp_task_result_db.insert_record(data_bytes) {
            Ok(()) => Ok(()),
            Err(e) => Err(store_failed(e)),
        }
    }

    /// Starts the scratch tries empty again, as after every block.
    pub fn reset_temp_db(&mut self)
        ensures
            final(self).db == old(self).db,
            final(self).task_db == old(self).task_db,
            final(self).task_operation_db == old(self).task_operation_db,
            final(self).task_result_db == old(self).task_result_db,
            final(self).temp_task_operation_db.entries() == no_entries(),
            final(self).temp_task_result_db.entries() == no_entries(),
            final(self).temp_task_operation_db.root() == keccak256(seq![0u8]),
            final(self).temp_task_result_db.root() == keccak256(seq![0u8]),
    {
        self.temp_task_operation_db.reset();
        self.temp_task_result_db.reset();
    }
}

} // verus!
