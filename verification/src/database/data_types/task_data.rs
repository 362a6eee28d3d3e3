//! A task of the catalog.

use crate::database::keccak::Hash256;
use vstd::prelude::*;

verus! {

/// A task: the hash of its binary, how many nodes may take it and how many
/// have, and its weight in the reward.
#[derive(Debug, PartialEq, Clone, Copy, Eq, Hash)]
pub struct TaskData {
    pub id: u64,
    pub hash: Hash256,
    pub task_type: TaskType,
    pub node_limit: u64,
    pub current_node_num: u64,
    pub status: TaskStatus,
    pub reward_weight: u64,
}

#[derive(Debug, PartialEq, Clone, Copy, Eq, Hash, Structural)]
pub enum TaskStatus {
    Enable,
    Disable,
}

#[derive(Debug, PartialEq, Clone, Copy, Eq, Hash, Structural)]
pub enum TaskType {
    LongTerm,
    Single,
}

/// A copy of a task list.
pub fn copy_tasks(tasks: &Vec<TaskData>) -> (copy: Vec<TaskData>)
    ensures
        copy@ == tasks@,
{
    let mut copy: Vec<TaskData> = Vec::new();
    let mut i: usize = 0;
    while i < tasks.len()
        invariant
            i <= tasks@.len(),
            copy@ == tasks@.take(i as int),
        decreases tasks@.len() - i,
    {
        copy.push(tasks[i]);
        assert(tasks@.take(i + 1) =~= tasks@.take(i as int).push(tasks@[i as int]));
        i += 1;
    }
    assert(tasks@.take(i as int) =~= tasks@);
    copy
}

} // verus!
