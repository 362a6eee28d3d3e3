//! A node of the network as the node list keeps it.

use vstd::prelude::*;

verus! {

#[derive(Debug, PartialEq, Clone, Copy, Eq, Structural)]
pub enum NodeType {
    Work,
    Verify,
}

impl Default for NodeType {
    fn default() -> (t: Self)
        ensures
            t == NodeType::Work,
    {
        NodeType::Work
    }
}

#[derive(Debug, PartialEq, Clone, Copy, Eq, Structural)]
pub enum NodeStatus {
    Online,
    Offline,
}

impl Default for NodeStatus {
    fn default() -> (s: Self)
        ensures
            s == NodeStatus::Offline,
    {
        NodeStatus::Offline
    }
}

#[derive(Debug, PartialEq, Clone, Copy, Eq, Hash, Structural)]
pub enum NodeActiveStatus {
    Inactived,
    Actived,
}

impl Default for NodeActiveStatus {
    fn default() -> (s: Self)
        ensures
            s == NodeActiveStatus::Inactived,
    {
        NodeActiveStatus::Inactived
    }
}

/// A node: who it is, what it does, and its stakes and votes. The stakes
/// and votes of its workers are kept as pairs of a peer and an amount.
#[derive(Debug, PartialEq, Clone, Eq)]
pub struct NodeData {
    pub peer_id: String,
    pub bind_address: String,
    pub status: NodeStatus,
    pub active_status: NodeActiveStatus,
    pub node_type: NodeType,
    pub stake_amount: u128,
    pub worker_stake_amount: Vec<(String, u128)>,
    pub vote_amount: u128,
    pub voting_rights: u128,
    pub worker_vote_amount: Vec<(String, u128)>,
    pub online_blocks: u128,
}

impl NodeData {
    /// A node that is known by its peer and its address only: no stake,
    /// no votes, no block online.
    pub open spec fn is_fresh(
        self,
        peer_id: Seq<char>,
        bind_address: Seq<char>,
        status: NodeStatus,
        active_status: NodeActiveStatus,
        node_type: NodeType,
    ) -> bool {
        &&& self.peer_id@ == peer_id
        &&& self.bind_address@ == bind_address
        &&& self.status == status
        &&& self.active_status == active_status
        &&& self.node_type == node_type
        &&& self.stake_amount == 0
        &&& self.worker_stake_amount@.len() == 0
        &&& self.vote_amount == 0
        &&& self.voting_rights == 0
        &&& self.worker_vote_amount@.len() == 0
        &&& self.online_blocks == 0
    }

    /// A node that is known by its peer and its address only.
    pub fn fresh(
        peer_id: String,
        bind_address: String,
        status: NodeStatus,
        active_status: NodeActiveStatus,
        node_type: NodeType,
    ) -> (node: NodeData)
        ensures
            node.is_fresh(peer_id@, bind_address@, status, active_status, node_type),
    {
        NodeData {
            peer_id,
            bind_address,
            status,
            active_status,
            node_type,
            stake_amount: 0,
            worker_stake_amount: Vec::new(),
            vote_amount: 0,
            voting_rights: 0,
            worker_vote_amount: Vec::new(),
            online_blocks: 0,
        }
    }
}

impl Default for NodeData {
    fn default() -> (node: Self)
        ensures
            node.is_fresh(
                Seq::empty(),
                Seq::empty(),
                NodeStatus::Offline,
                NodeActiveStatus::Inactived,
                NodeType::Work,
            ),
    {
        NodeData::fresh(
            String::new(),
            String::new(),
            NodeStatus::Offline,
            NodeActiveStatus::Inactived,
            NodeType::Work,
        )
    }
}

/// One assignment: a task, and the peer that is to run it.
#[derive(Debug, PartialEq, Clone, Eq, Hash)]
pub struct TaskDistributeData {
    pub task_id: u64,
    pub peer_id: String,
}

impl Default for TaskDistributeData {
    fn default() -> (d: Self)
        ensures
            d.task_id == 0,
            d.peer_id@ == Seq::<char>::empty(),
    {
        TaskDistributeData { task_id: 0, peer_id: String::new() }
    }
}

} // verus!
