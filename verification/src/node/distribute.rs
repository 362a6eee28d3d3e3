//! The distribution of tasks to the active nodes.
//!
//! Tasks are taken in the order of the catalog, nodes in an order that is
//! given. A task goes to every active node in turn, as long as the task
//! has room (nodes that run it already count towards its limit) and the
//! peer of the node holds fewer than [`NODE_TASK_LIMIT`] assignments.

use crate::database::data_types::{NodeActiveStatus, NodeData, TaskData, TaskDistributeData};
use vstd::prelude::*;

verus! {

/// Assignments that one peer holds at most.
pub const NODE_TASK_LIMIT: usize = 2;

/// One assignment as a value: the task and the peer.
pub type Assignment = (u64, Seq<char>);

/// The assignments of a list as values.
pub open spec fn assignments_view(list: Seq<TaskDistributeData>) -> Seq<Assignment> {
    Seq::new(list.len(), |i: int| (list[i].task_id, list[i].peer_id@))
}

/// How many assignments of `list` go to `peer`.
pub open spec fn held_by(list: Seq<Assignment>, peer: Seq<char>) -> nat
    decreases list.len(),
{
    if list.len() == 0 {
        0
    } else {
        held_by(list.drop_last(), peer) + if list.last().1 == peer {
            1nat
        } else {
            0nat
        }
    }
}

/// Whether a task goes to a node, given the assignments made before and
/// how many of them are for the same task.
pub open spec fn takes(task: TaskData, node: NodeData, before: Seq<Assignment>, given: int) -> bool {
    &&& node.active_status == NodeActiveStatus::Actived
    &&& task.current_node_num + given < task.node_limit
    &&& held_by(before, node.peer_id@) < NODE_TASK_LIMIT
}

/// The assignments after `task` was offered to the first `k` nodes of
/// `order`, where `before` were made for the tasks before it.
pub open spec fn offer(
    task: TaskData,
    nodes: Seq<NodeData>,
    order: Seq<usize>,
    before: Seq<Assignment>,
    k: nat,
) -> Seq<Assignment>
    decreases k,
{
    if k == 0 {
        before
    } else {
        let sofar = offer(task, nodes, order, before, (k - 1) as nat);
        let node = nodes[order[k - 1] as int];
        if takes(task, node, sofar, sofar.len() - before.len()) {
            sofar.push((task.id, node.peer_id@))
        } else {
            sofar
        }
    }
}

/// The assignments after the first `t` tasks were offered to all nodes of `order`.
pub open spec fn distribute(tasks: Seq<TaskData>, nodes: Seq<NodeData>, order: Seq<usize>, t: nat) -> Seq<
    Assignment,
>
    decreases t,
{
    if t == 0 {
        Seq::empty()
    } else {
        offer(tasks[t - 1], nodes, order, distribute(tasks, nodes, order, (t - 1) as nat), order.len())
    }
}

/// Whether `order` names nodes of a list of `n` nodes.
pub open spec fn in_range(order: Seq<usize>, n: nat) -> bool {
    forall|i: int| 0 <= i < order.len() ==> (#[trigger] order[i]) < n
}

/// Counts the assignments of `list` that go to `peer`.
pub fn count_held(list: &Vec<TaskDistributeData>, peer: &String) -> (n: usize)
    ensures
        n == held_by(assignments_view(list@), peer@),
{
    let ghost all = assignments_view(list@);
    let mut n: usize = 0;
    let mut i: usize = 0;
    assert(all.take(0) =~= Seq::empty());
    while i < list.len()
        invariant
            i <= list@.len(),
            all == assignments_view(list@),
            n == held_by(all.take(i as int), peer@),
            n <= i,
        decreases list@.len() - i,
    {
        proof {
            assert(all.take(i + 1).drop_last() =~= all.take(i as int));
            assert(all.take(i + 1).last() == all[i as int]);
        }
        if list[i].peer_id == *peer {
            n += 1;
        }
        i += 1;
    }
    assert(all.take(i as int) =~= all);
    n
}

/// Distributes the tasks to the nodes, taken in the order given.
pub fn distribute_in_order(tasks: &Vec<TaskData>, nodes: &Vec<NodeData>, order: &Vec<usize>) -> (out:
    Vec<TaskDistributeData>)
    requires
        in_range(order@, nodes@.len()),
    ensures
        assignments_view(out@) == distribute(tasks@, nodes@, order@, tasks@.len()),
{
    let mut out: Vec<TaskDistributeData> = Vec::new();
    let mut t: usize = 0;
    assert(assignments_view(out@) =~= Seq::empty());
    while t < tasks.len()
        invariant
            t <= tasks@.len(),
            in_range(order@, nodes@.len()),
            assignments_view(out@) == distribute(tasks@, nodes@, order@, t as nat),
        decreases tasks@.len() - t,
    {
        let task = tasks[t];
        let ghost before = assignments_view(out@);
        let mut given: usize = 0;
        let mut k: usize = 0;
        while k < order.len()
            invariant
                k <= order@.len(),
                in_range(order@, nodes@.len()),
                before.len() + given == out@.len(),
                given <= k,
                assignments_view(out@) == offer(task, nodes@, order@, before, k as nat),
            decreases order@.len() - k,
        {
            let node = &nodes[order[k]];
            let ghost sofar = assignments_view(out@);
            let active = match node.active_status {
                NodeActiveStatus::Actived => true,
                NodeActiveStatus::Inactived => false,
            };
            let room = task.current_node_num < task.node_limit && (given as u64) < task.node_limit
                - task.current_node_num;
            if active && room && count_held(&out, &node.peer_id) < NODE_TASK_LIMIT {
                out.push(TaskDistributeData { task_id: task.id, peer_id: node.peer_id.clone() });
                given += 1;
                assert(assignments_view(out@) =~= sofar.push((task.id, node.peer_id@)));
            }
            k += 1;
        }
        t += 1;
    }
    out
}

/// No peer holds more than [`NODE_TASK_LIMIT`] assignments.
pub proof fn lemma_peer_cap(
    tasks: Seq<TaskData>,
    nodes: Seq<NodeData>,
    order: Seq<usize>,
    t: nat,
    peer: Seq<char>,
)
    ensures
        held_by(distribute(tasks, nodes, order, t), peer) <= NODE_TASK_LIMIT,
    decreases t,
{
    if t > 0 {
        lemma_peer_cap(tasks, nodes, order, (t - 1) as nat, peer);
        lemma_offer_cap(
            tasks[t - 1],
            nodes,
            order,
            distribute(tasks, nodes, order, (t - 1) as nat),
            order.len(),
            peer,
        );
    }
}

/// Offering a task keeps every peer within [`NODE_TASK_LIMIT`].
proof fn lemma_offer_cap(
    task: TaskData,
    nodes: Seq<NodeData>,
    order: Seq<usize>,
    before: Seq<Assignment>,
    k: nat,
    peer: Seq<char>,
)
    requires
        held_by(before, peer) <= NODE_TASK_LIMIT,
    ensures
        held_by(offer(task, nodes, order, before, k), peer) <= NODE_TASK_LIMIT,
    decreases k,
{
    if k > 0 {
        lemma_offer_cap(task, nodes, order, before, (k - 1) as nat, peer);
        let sofar = offer(task, nodes, order, before, (k - 1) as nat);
        let node = nodes[order[k - 1] as int];
        if takes(task, node, sofar, sofar.len() - before.len()) {
            let next = sofar.push((task.id, node.peer_id@));
            assert(next.drop_last() =~= sofar);
        }
    }
}

/// Whether an assignment goes to an active node of the order, for a task of the catalog.
pub open spec fn well_placed(
    a: Assignment,
    tasks: Seq<TaskData>,
    nodes: Seq<NodeData>,
    order: Seq<usize>,
) -> bool {
    &&& exists|t: int| 0 <= t < tasks.len() && (#[trigger] tasks[t]).id == a.0
    &&& exists|k: int|
        0 <= k < order.len() && (#[trigger] nodes[order[k] as int]).peer_id@ == a.1
            && nodes[order[k] as int].active_status == NodeActiveStatus::Actived
}

/// Every assignment goes to an active node, for a task of the catalog.
pub proof fn lemma_assignments_well_placed(
    tasks: Seq<TaskData>,
    nodes: Seq<NodeData>,
    order: Seq<usize>,
    t: nat,
)
    requires
        t <= tasks.len(),
    ensures
        forall|i: int|
            0 <= i < distribute(tasks, nodes, order, t).len() ==> well_placed(
                #[trigger] distribute(tasks, nodes, order, t)[i],
                tasks,
                nodes,
                order,
            ),
    decreases t,
{
    if t > 0 {
        lemma_assignments_well_placed(tasks, nodes, order, (t - 1) as nat);
        lemma_offer_well_placed(
            tasks,
            (t - 1) as int,
            nodes,
            order,
            distribute(tasks, nodes, order, (t - 1) as nat),
            order.len(),
        );
    }
}

/// Offering a task of the catalog adds assignments to active nodes only.
proof fn lemma_offer_well_placed(
    tasks: Seq<TaskData>,
    t: int,
    nodes: Seq<NodeData>,
    order: Seq<usize>,
    before: Seq<Assignment>,
    k: nat,
)
    requires
        0 <= t < tasks.len(),
        k <= order.len(),
        forall|i: int| 0 <= i < before.len() ==> well_placed(#[trigger] before[i], tasks, nodes, order),
    ensures
        forall|i: int|
            0 <= i < offer(tasks[t], nodes, order, before, k).len() ==> well_placed(
                #[trigger] offer(tasks[t], nodes, order, before, k)[i],
                tasks,
                nodes,
                order,
            ),
    decreases k,
{
    if k > 0 {
        lemma_offer_well_placed(tasks, t, nodes, order, before, (k - 1) as nat);
        let sofar = offer(tasks[t], nodes, order, before, (k - 1) as nat);
        let node = nodes[order[k - 1] as int];
        if takes(tasks[t], node, sofar, sofar.len() - before.len()) {
            let a: Assignment = (tasks[t].id, node.peer_id@);
            assert(tasks[t].id == a.0);
            assert(nodes[order[k - 1] as int].peer_id@ == a.1);
            assert(well_placed(a, tasks, nodes, order));
        }
    }
}

/// Offering a task adds assignments of that task only, at the end, and no
/// more than the task has room for.
pub proof fn lemma_offer_limit(
    task: TaskData,
    nodes: Seq<NodeData>,
    order: Seq<usize>,
    before: Seq<Assignment>,
    k: nat,
)
    ensures
        ({
            let after = offer(task, nodes, order, before, k);
            &&& before.len() <= after.len() <= before.len() + k
            &&& after.take(before.len() as int) == before
            &&& forall|i: int| before.len() <= i < after.len() ==> (#[trigger] after[i]).0 == task.id
            &&& after.len() > before.len() ==> task.current_node_num + (after.len() - before.len())
                <= task.node_limit
        }),
    decreases k,
{
    if k == 0 {
        assert(before.take(before.len() as int) =~= before);
    } else {
        lemma_offer_limit(task, nodes, order, before, (k - 1) as nat);
        let sofar = offer(task, nodes, order, before, (k - 1) as nat);
        let after = offer(task, nodes, order, before, k);
        assert(after.take(before.len() as int) =~= sofar.take(before.len() as int));
    }
}

/// How many assignments of `list` are for the task `id`.
pub open spec fn given_to(list: Seq<Assignment>, id: u64) -> nat
    decreases list.len(),
{
    if list.len() == 0 {
        0
    } else {
        given_to(list.drop_last(), id) + if list.last().0 == id {
            1nat
        } else {
            0nat
        }
    }
}

/// Whether no two tasks of a catalog have the same id.
pub open spec fn distinct_ids(tasks: Seq<TaskData>) -> bool {
    forall|i: int, j: int|
        0 <= i < j < tasks.len() ==> (#[trigger] tasks[i]).id != (#[trigger] tasks[j]).id
}

/// Where all assignments of a list from place `from` on are for one task,
/// they count for that task and for no other.
proof fn lemma_given_suffix(list: Seq<Assignment>, from: int, id: u64, task: u64)
    requires
        0 <= from <= list.len(),
        forall|i: int| from <= i < list.len() ==> (#[trigger] list[i]).0 == task,
    ensures
        given_to(list, id) == given_to(list.take(from), id) + if id == task {
            list.len() - from
        } else {
            0
        },
    decreases list.len() - from,
{
    if list.len() == from {
        assert(list.take(from) =~= list);
    } else {
        let shorter = list.drop_last();
        lemma_given_suffix(shorter, from, id, task);
        assert(shorter.take(from) =~= list.take(from));
    }
}

/// Where the tasks of the catalog have ids of their own, no task is given
/// to more nodes than it has room for: the nodes that run it already and
/// the nodes that it is given to are no more than its limit. A task that
/// was not offered yet is given to none.
pub proof fn lemma_task_limit(
    tasks: Seq<TaskData>,
    nodes: Seq<NodeData>,
    order: Seq<usize>,
    t: nat,
    j: int,
)
    requires
        t <= tasks.len(),
        0 <= j < tasks.len(),
        distinct_ids(tasks),
    ensures
        ({
            let given = given_to(distribute(tasks, nodes, order, t), tasks[j].id);
            &&& given > 0 ==> tasks[j].current_node_num + given <= tasks[j].node_limit
            &&& j >= t ==> given == 0
        }),
    decreases t,
{
    if t > 0 {
        let before = distribute(tasks, nodes, order, (t - 1) as nat);
        let after = distribute(tasks, nodes, order, t);
        let task = tasks[t - 1];
        lemma_task_limit(tasks, nodes, order, (t - 1) as nat, j);
        lemma_offer_limit(task, nodes, order, before, order.len());
        lemma_given_suffix(after, before.len() as int, tasks[j].id, task.id);
        if j != t - 1 {
            if j < t - 1 {
                assert(tasks[j].id != tasks[t - 1].id);
            } else {
                assert(tasks[t - 1].id != tasks[j].id);
            }
        }
    }
}

/// Whether the nodes that an order names have peers of their own.
pub open spec fn distinct_peers(nodes: Seq<NodeData>, order: Seq<usize>) -> bool {
    forall|a: int, b: int|
        0 <= a < b < order.len() ==> nodes[#[trigger] order[a] as int].peer_id@
            != nodes[#[trigger] order[b] as int].peer_id@
}

/// Where the nodes have peers of their own, a task goes to no peer twice,
/// and not yet to the peer of a node that it was not offered to.
proof fn lemma_offer_fresh(
    task: TaskData,
    nodes: Seq<NodeData>,
    order: Seq<usize>,
    before: Seq<Assignment>,
    k: nat,
)
    requires
        k <= order.len(),
        distinct_peers(nodes, order),
    ensures
        ({
            let after = offer(task, nodes, order, before, k);
            &&& forall|i: int, m: int|
                before.len() <= i < after.len() && k <= m < order.len() ==> (#[trigger] after[i]).1
                    != nodes[#[trigger] order[m] as int].peer_id@
            &&& forall|a: int, b: int|
                before.len() <= a < b < after.len() ==> (#[trigger] after[a]).1
                    != (#[trigger] after[b]).1
        }),
    decreases k,
{
    if k > 0 {
        lemma_offer_fresh(task, nodes, order, before, (k - 1) as nat);
        lemma_offer_limit(task, nodes, order, before, (k - 1) as nat);
        let sofar = offer(task, nodes, order, before, (k - 1) as nat);
        let after = offer(task, nodes, order, before, k);
        let last = order[k - 1];
        assert forall|i: int, m: int|
            before.len() <= i < after.len() && k <= m < order.len() implies (#[trigger] after[i]).1
                != nodes[#[trigger] order[m] as int].peer_id@ by {
            if i < sofar.len() {
                assert(after[i] == sofar[i]);
            } else {
                assert(after[i].1 == nodes[last as int].peer_id@);
                assert(order[k - 1] == last);
            }
        }
        assert forall|a: int, b: int| before.len() <= a < b < after.len() implies (#[trigger] after[a]).1
            != (#[trigger] after[b]).1 by {
            assert(after[a] == sofar[a]);
            if b < sofar.len() {
                assert(after[b] == sofar[b]);
            } else {
                assert(after[b].1 == nodes[last as int].peer_id@);
                assert(sofar[a].1 != nodes[order[k - 1] as int].peer_id@);
            }
        }
    }
}

/// Where the tasks have ids of their own, no assignment is for a task
/// that was not offered yet.
proof fn lemma_not_yet_offered(tasks: Seq<TaskData>, nodes: Seq<NodeData>, order: Seq<usize>, t: nat)
    requires
        t <= tasks.len(),
        distinct_ids(tasks),
    ensures
        forall|i: int, j: int|
            0 <= i < distribute(tasks, nodes, order, t).len() && t <= j < tasks.len() ==> (
            #[trigger] distribute(tasks, nodes, order, t)[i]).0 != (#[trigger] tasks[j]).id,
    decreases t,
{
    if t > 0 {
        let before = distribute(tasks, nodes, order, (t - 1) as nat);
        let after = distribute(tasks, nodes, order, t);
        lemma_not_yet_offered(tasks, nodes, order, (t - 1) as nat);
        lemma_offer_limit(tasks[t - 1], nodes, order, before, order.len());
        assert forall|i: int, j: int| 0 <= i < after.len() && t <= j < tasks.len() implies (
        #[trigger] after[i]).0 != (#[trigger] tasks[j]).id by {
            if i < before.len() {
                assert(after[i] == after.take(before.len() as int)[i]);
                assert(before[i].0 != tasks[j].id);
            } else {
                assert(after[i].0 == tasks[t - 1].id);
                assert(tasks[t - 1].id != tasks[j].id);
            }
        }
    }
}

/// Where the tasks have ids of their own and the nodes peers of their
/// own, no task is given to the same peer twice: no two assignments are
/// the same.
pub proof fn lemma_no_assignment_twice(
    tasks: Seq<TaskData>,
    nodes: Seq<NodeData>,
    order: Seq<usize>,
    t: nat,
)
    requires
        t <= tasks.len(),
        distinct_ids(tasks),
        distinct_peers(nodes, order),
    ensures
        forall|a: int, b: int|
            0 <= a < b < distribute(tasks, nodes, order, t).len() ==> (#[trigger] distribute(
                tasks,
                nodes,
                order,
                t,
            )[a]) != (#[trigger] distribute(tasks, nodes, order, t)[b]),
    decreases t,
{
    if t > 0 {
        let before = distribute(tasks, nodes, order, (t - 1) as nat);
        let after = distribute(tasks, nodes, order, t);
        lemma_no_assignment_twice(tasks, nodes, order, (t - 1) as nat);
        lemma_not_yet_offered(tasks, nodes, order, (t - 1) as nat);
        lemma_offer_limit(tasks[t - 1], nodes, order, before, order.len());
        lemma_offer_fresh(tasks[t - 1], nodes, order, before, order.len());
        assert forall|a: int, b: int| 0 <= a < b < after.len() implies (#[trigger] after[a]) != (
        #[trigger] after[b]) by {
            if b < before.len() {
                assert(after[a] == after.take(before.len() as int)[a]);
                assert(after[b] == after.take(before.len() as int)[b]);
                assert(before[a] != before[b]);
            } else if a < before.len() {
                assert(after[a] == after.take(before.len() as int)[a]);
                assert(before[a].0 != tasks[t - 1].id);
                assert(after[b].0 == tasks[t - 1].id);
            } else {
                assert(after[a].1 != after[b].1);
            }
        }
    }
}

} // verus!
