//! The node state machine: who is in the network, who is active, and who
//! runs which task.

use self::config::NodeConfig;
use self::db::NodeDB;
use self::distribute::{assignments_view, distribute, distribute_in_order, in_range, Assignment};
use self::error::{NodeError, Result};
use self::init::{
    acknowledged, block_index, is_acknowledged, read_block_index, self_activation, InitAction,
    InitEvent, InitState, InitTarget, KeeperCheck,
};
use crate::blockchain::db::{ActivationView, NeedSignData, NodeActivation};
use crate::database::data_types::{
    NodeActiveStatus, NodeData, NodeStatus, NodeType, TaskData, TaskDistributeData,
};
use crate::database::keccak::keccak256;
use crate::database::trie::{no_entries, with_entry};
use crate::message::{Caller, LocalMessage, LocalMessageModule, Message};
use crate::network::topics::{PingMessage, SubTopics, TopicMessage, Topics};
use crate::network::{copy_subscriptions, NetworkModule};
use rand::seq::SliceRandom;
use vstd::prelude::*;

pub mod config;
pub mod db;
pub mod distribute;
pub mod error;
pub mod init;

verus! {

/// Blocks between two distributions of tasks.
pub const DISTRIBUTE_INTERVAL: u64 = 10;

/// What the node state machine asks of its surroundings after a local message.
#[derive(Debug)]
pub enum NodeEffect {
    /// Nothing.
    Nothing,
    /// Ask the task state machine for its catalog, and hand the answer to
    /// [`NodeModule::distribute_task`] with the index given.
    GetTaskList(u64),
    /// Do the next step of the initialisation.
    Init(InitAction),
}

/// What is to go out on the overlay: the topic, and the message for it.
#[derive(Debug)]
pub struct Publication {
    pub peer_id: Option<String>,
    pub topic: Topics,
    pub message: TopicMessage,
}

pub struct NodeModule {
    config: NodeConfig,
    peer_id: String,
    account: Vec<u8>,
    pub_key: Vec<u8>,
    network_caller: Caller,
    message_waiter: Caller,
    message_subscribe: Vec<(Topics, Caller)>,
    pub task_caller: Option<Caller>,
    pub blockchain_caller: Option<Caller>,
    pub node_db: NodeDB,
    status: NodeStatus,
    active_status: NodeActiveStatus,
    node_type: NodeType,
    node_list: Vec<NodeData>,
    last_distribute_block: u64,
    task_distribute_list: Vec<TaskDistributeData>,
    init: InitState,
    pending: Option<NeedSignData<NodeActivation>>,
}

/// Calls `SliceRandom::shuffle` of `rand` with the generator of the
/// thread. The contract claims what holds of every outcome: the list holds
/// the items it held.
#[verifier::external_body]
fn shuffle(order: &mut Vec<usize>)
    ensures
        final(order)@.to_multiset() == old(order)@.to_multiset(),
{
    order.shuffle(&mut rand::thread_rng());
}

/// The numbers from 0 up to `n`, in order.
pub open spec fn identity_order(n: nat) -> Seq<usize> {
    Seq::new(n, |i: int| i as usize)
}

/// The numbers from 0 up to `n`, in a random order.
pub fn shuffled_order(n: usize) -> (order: Vec<usize>)
    ensures
        order@.to_multiset() == identity_order(n as nat).to_multiset(),
        in_range(order@, n as nat),
{
    let mut order: Vec<usize> = Vec::new();
    let mut i: usize = 0;
    while i < n
        invariant
            i <= n,
            order@ == identity_order(i as nat),
        decreases n - i,
    {
        order.push(i);
        assert(order@ =~= identity_order((i + 1) as nat));
        i += 1;
    }
    shuffle(&mut order);
    proof {
        broadcast use vstd::seq_lib::group_to_multiset_ensures;

        let start = identity_order(n as nat);
        assert forall|k: int| 0 <= k < order@.len() implies (#[trigger] order@[k]) < n by {
            assert(order@.to_multiset().count(order@[k]) > 0);
            assert(start.to_multiset().count(order@[k]) > 0);
            assert(start.contains(order@[k]));
        }
    }
    order
}

/// Whether a node of the list has the peer.
pub open spec fn knows(list: Seq<NodeData>, peer: Seq<char>) -> bool {
    exists|i: int| 0 <= i < list.len() && (#[trigger] list[i]).peer_id@ == peer
}

impl NodeModule {
    /// The nodes that the state machine knows.
    pub closed spec fn nodes(&self) -> Seq<NodeData> {
        self.node_list@
    }

    /// The assignments of the last distribution.
    pub closed spec fn assignments(&self) -> Seq<Assignment> {
        assignments_view(self.task_distribute_list@)
    }

    /// The index of the block at which tasks were distributed last.
    pub closed spec fn distributed_at(&self) -> u64 {
        self.last_distribute_block
    }

    /// Where the initialisation stands.
    pub closed spec fn init_state(&self) -> InitState {
        self.init
    }

    /// The peer of the node.
    pub closed spec fn peer(&self) -> Seq<char> {
        self.peer_id@
    }

    /// Whether the node is active.
    pub closed spec fn active(&self) -> NodeActiveStatus {
        self.active_status
    }

    /// The principal that the node acts for.
    pub closed spec fn principal(&self) -> Seq<char> {
        self.config.principal_id@
    }

    /// The tries.
    pub closed spec fn tries(&self) -> NodeDB {
        self.node_db
    }

    /// The encoded principal that the node acts for.
    pub closed spec fn account(&self) -> Seq<u8> {
        self.account@
    }

    /// The public key of the node.
    pub closed spec fn public_key(&self) -> Seq<u8> {
        self.pub_key@
    }

    /// The signed activation that the initialisation holds until it is
    /// recorded, if it holds one.
    pub closed spec fn pending(&self) -> Option<ActivationView> {
        match self.pending {
            Some(signed) => Some(signed@),
            None => None,
        }
    }

    /// The activation of the node itself, with the signature given.
    pub open spec fn own_activation(&self, signature: Seq<u8>) -> ActivationView {
        ActivationView {
            operation: crate::blockchain::db::ActivationOperation::Activate,
            peer_id: self.peer(),
            account: self.account(),
            pub_key: self.public_key(),
            signature,
        }
    }

    /// The state machine of the node with the given peer and public key.
    /// `account` is the encoded principal. `waiter` reaches the state
    /// machine's own waiter.
    pub fn new(
        config: NodeConfig,
        peer_id: String,
        account: Vec<u8>,
        pub_key: Vec<u8>,
        node_db: NodeDB,
        waiter: Caller,
    ) -> (res: Result<NodeModule>)
        ensures
            res matches Ok(node) && node.tries() == node_db && node.nodes().len() == 0
                && node.active() == NodeActiveStatus::Inactived && node.assignments().len() == 0
                && node.distributed_at() == 0 && node.init_state() == InitState::Idle
                && node.peer() == peer_id@ && node.principal() == config.principal_id@
                && node.subscriptions().len() == 3 && node.subscriptions()[0].0
                == Topics::NodeList && node.subscriptions()[1].0 == Topics::NewBlock
                && node.subscriptions()[2].0 == Topics::KeepAlive && (forall|i: int|
                0 <= i < 3 ==> (#[trigger] node.subscriptions()[i]).1 == waiter)
                && node.message_caller() == waiter && node.account() == account@
                && node.public_key() == pub_key@ && node.pending() is None,
    {
        let mut message_subscribe: Vec<(Topics, Caller)> = Vec::new();
        message_subscribe.push((Topics::NodeList, waiter));
        message_subscribe.push((Topics::NewBlock, waiter));
        message_subscribe.push((Topics::KeepAlive, waiter));
        let node = NodeModule {
            config,
            peer_id,
            account,
            pub_key,
            message_subscribe,
            network_caller: waiter,
            message_waiter: waiter,
            task_caller: None,
            blockchain_caller: None,
            node_db,
            status: NodeStatus::Online,
            active_status: NodeActiveStatus::Inactived,
            node_type: NodeType::Work,
            node_list: Vec::new(),
            last_distribute_block: 0,
            task_distribute_list: Vec::new(),
            init: InitState::Idle,
            pending: None,
        };
        assert(assignments_view(node.task_distribute_list@) =~= Seq::empty());
        Ok(node)
    }

    /// The nodes that the state machine knows.
    pub fn node_list(&self) -> (list: &Vec<NodeData>)
        ensures
            list@ == self.nodes(),
    {
        &self.node_list
    }

    /// The assignments of the last distribution.
    pub fn task_distribute_list(&self) -> (list: &Vec<TaskDistributeData>)
        ensures
            assignments_view(list@) == self.assignments(),
    {
        &self.task_distribute_list
    }

    /// The question to the verifiers whether this node is active, to go
    /// out on the topic of the node status.
    pub fn require_active_status_from_verify_node(&self, timestamp: String) -> (res: Result<
        Publication,
    >)
        ensures
            res matches Ok(p) && p.peer_id is None && p.topic == Topics::NodeStatus
                && p.message.data@.len() == 0 && (p.message.sub_topic matches SubTopics::ReqNodeActiveStatus(
                principal,
                time,
            ) && principal@ == self.principal() && time == timestamp),
    {
        Ok(
            Publication {
                peer_id: None,
                topic: Topics::NodeStatus,
                message: TopicMessage {
                    sub_topic: SubTopics::ReqNodeActiveStatus(
                        self.config.principal_id.clone(),
                        timestamp,
                    ),
                    data: Vec::new(),
                },
            },
        )
    }

    /// The answer of a verifier to the question whether a node is active:
    /// it is.
    pub fn verify_node_ack_node_active_status(&self, principal_id: &String, timestamp: &String) -> (res:
        Result<Publication>)
        ensures
            res matches Ok(p) && p.peer_id is None && p.topic == Topics::NodeStatus
                && p.message.data@.len() == 0 && (p.message.sub_topic matches SubTopics::AckNodeActiveStatus(
                status,
                time,
            ) && status == NodeActiveStatus::Actived && time@ == timestamp@),
    {
        Ok(
            Publication {
                peer_id: None,
                topic: Topics::NodeStatus,
                message: TopicMessage {
                    sub_topic: SubTopics::AckNodeActiveStatus(
                        NodeActiveStatus::Actived,
                        timestamp.clone(),
                    ),
                    data: Vec::new(),
                },
            },
        )
    }

    /// Whether a node of the list has the peer.
    fn is_known(&self, peer_id: &String) -> (known: bool)
        ensures
            known == knows(self.nodes(), peer_id@),
    {
        let mut i: usize = 0;
        while i < self.node_list.len()
            invariant
                i <= self.nodes().len(),
                forall|j: int| 0 <= j < i ==> (#[trigger] self.nodes()[j]).peer_id@ != peer_id@,
            decreases self.nodes().len() - i,
        {
            if self.node_list[i].peer_id == *peer_id {
                return true;
            }
            i += 1;
        }
        false
    }

    /// Serves a message of a peer. `ping` is the decoded payload of a
    /// keep-alive.
    ///
    /// A keep-alive of a peer that is not known adds the peer to the node
    /// list: online, not active, a worker, bound to the principal of the
    /// keep-alive. Any other message changes nothing.
    pub fn deal_peer_message(&mut self, msg: &TopicMessage, ping: Option<PingMessage>)
        requires
            msg.sub_topic is Ping ==> ping is Some,
        ensures
            final(self).account() == old(self).account(),
            final(self).public_key() == old(self).public_key(),
            final(self).pending() == old(self).pending(),
            final(self).assignments() == old(self).assignments(),
            final(self).distributed_at() == old(self).distributed_at(),
            final(self).init_state() == old(self).init_state(),
            final(self).tries() == old(self).tries(),
            final(self).peer() == old(self).peer(),
            final(self).active() == old(self).active(),
            final(self).principal() == old(self).principal(),
            msg.sub_topic is Ping && !knows(old(self).nodes(), ping.unwrap().peer_id@) ==> {
                &&& final(self).nodes().len() == old(self).nodes().len() + 1
                &&& final(self).nodes().drop_last() == old(self).nodes()
                &&& final(self).nodes().last().is_fresh(
                    ping.unwrap().peer_id@,
                    ping.unwrap().principal_id@,
                    NodeStatus::Online,
                    NodeActiveStatus::Inactived,
                    NodeType::Work,
                )
            },
            !(msg.sub_topic is Ping && !knows(old(self).nodes(), ping.unwrap().peer_id@))
                ==> final(self).nodes() == old(self).nodes(),
    {
        match msg.sub_topic {
            SubTopics::Ping => {
                let ping_msg = ping.unwrap();
                if !self.is_known(&ping_msg.peer_id) {
                    self.node_list.push(
                        NodeData::fresh(
                            ping_msg.peer_id,
                            ping_msg.principal_id,
                            NodeStatus::Online,
                            NodeActiveStatus::Inactived,
                            NodeType::Work,
                        ),
                    );
                    assert(self.node_list@.drop_last() =~= old(self).nodes());
                }
            },
            _ => {},
        }
    }

    /// Distributes the tasks of the catalog in `reply`, the answer of the
    /// task state machine, to the active nodes, taken in a random order.
    /// `index` is the index of the current block.
    ///
    /// Fails, and changes nothing, where the answer holds no task. Else
    /// the assignments are those of [`distribute`] for some order of the
    /// nodes, they are to go out on the topic of the task list, and the
    /// distribution counts as made at `index`.
    pub fn distribute_task(&mut self, reply: Option<Message>, index: u64) -> (res: Result<Publication>)
        ensures
            final(self).account() == old(self).account(),
            final(self).public_key() == old(self).public_key(),
            final(self).pending() == old(self).pending(),
            final(self).nodes() == old(self).nodes(),
            final(self).init_state() == old(self).init_state(),
            final(self).tries() == old(self).tries(),
            final(self).peer() == old(self).peer(),
            final(self).active() == old(self).active(),
            final(self).principal() == old(self).principal(),
            task_list(reply).len() == 0 ==> res is Err && final(self).assignments() == old(
                self,
            ).assignments() && final(self).distributed_at() == old(self).distributed_at(),
            task_list(reply).len() > 0 ==> {
                &&& res matches Ok(p)
                &&& final(self).distributed_at() == index
                &&& exists|order: Seq<usize>|
                    in_range(order, old(self).nodes().len()) && order.to_multiset() == identity_order(
                        old(self).nodes().len(),
                    ).to_multiset() && #[trigger] distribute(
                        task_list(reply),
                        old(self).nodes(),
                        order,
                        task_list(reply).len(),
                    ) == final(self).assignments()
                &&& res.unwrap().topic == Topics::TaskList
                &&& res.unwrap().peer_id matches Some(peer) && peer@ == old(self).peer()
                &&& res.unwrap().message.data@.len() == 0
                &&& res.unwrap().message.sub_topic matches SubTopics::DistributeTask(list)
                    && assignments_view(list@) == final(self).assignments()
            },
    {
        let tasks = match reply {
            Some(Message::LocalMessage(LocalMessage::GetTaskListResponse(list))) => list,
            _ => Vec::new(),
        };
        if tasks.len() == 0 {
            return Err(NodeError { message: "Task list is empty!".to_owned() });
        }
        let order = shuffled_order(self.node_list.len());
        let list = distribute_in_order(&tasks, &self.node_list, &order);
        let copy = copy_assignments(&list);
        self.task_distribute_list = list;
        self.last_distribute_block = index;
        assert(tasks@ == task_list(reply));
        assert(self.nodes() == old(self).nodes());
        assert(distribute(task_list(reply), old(self).nodes(), order@, task_list(reply).len())
            == self.assignments());
        let publication = Publication {
            peer_id: Some(self.peer_id.clone()),
            topic: Topics::TaskList,
            message: TopicMessage { sub_topic: SubTopics::DistributeTask(copy), data: Vec::new() },
        };
        assert(publication.message.sub_topic matches SubTopics::DistributeTask(list)
            && assignments_view(list@) == self.assignments());
        Ok(publication)
    }

    /// Serves a local message.
    ///
    /// * `ReqNodeDistributeTask` tells that a block was packed: the
    ///   scratch tries start empty again, and ten blocks after the last
    ///   distribution the catalog is to be asked for.
    /// * `ReqKeeperInit` starts the initialisation.
    /// * `ReqWorkerActiveStatus` is answered with the active status of the node.
    /// * Any other message is ignored.
    pub fn deal_local_message(&mut self, msg: &LocalMessage) -> (res: (Option<Message>, NodeEffect))
        ensures
            !(*msg is ReqWorkerActiveStatus) ==> res.0 is None,
            final(self).account() == old(self).account(),
            final(self).public_key() == old(self).public_key(),
            final(self).nodes() == old(self).nodes(),
            final(self).assignments() == old(self).assignments(),
            final(self).distributed_at() == old(self).distributed_at(),
            final(self).peer() == old(self).peer(),
            final(self).active() == old(self).active(),
            final(self).principal() == old(self).principal(),
            match *msg {
                LocalMessage::ReqNodeDistributeTask(index) => {
                    &&& final(self).init_state() == old(self).init_state()
                    &&& final(self).tries().node_db == old(self).tries().node_db
                    &&& final(self).tries().node_active_db == old(self).tries().node_active_db
                    &&& final(self).tries().temp_node_db.entries() == no_entries()
                    &&& final(self).tries().temp_node_active_db.entries() == no_entries()
                    &&& if index - old(self).distributed_at() == DISTRIBUTE_INTERVAL {
                        res.1 matches NodeEffect::GetTaskList(i) && i == index
                    } else {
                        res.1 is Nothing
                    }
                },
                LocalMessage::ReqKeeperInit() => {
                    &&& final(self).tries() == old(self).tries()
                    &&& final(self).init_state() == InitState::AwaitBlock
                    &&& res.1 matches NodeEffect::Init(
                        InitAction::Call(
                            InitTarget::Blockchain,
                            LocalMessage::ReqBlockCurrent(),
                        ),
                    )
                },
                LocalMessage::ReqWorkerActiveStatus(_) => {
                    &&& final(self).tries() == old(self).tries()
                    &&& final(self).init_state() == old(self).init_state()
                    &&& res.1 is Nothing
                    &&& res.0 matches Some(
                        Message::LocalMessage(LocalMessage::AckWorkerActiveStatus(status)),
                    )
                    &&& status == old(self).active()
                },
                _ => {
                    &&& final(self).tries() == old(self).tries()
                    &&& final(self).init_state() == old(self).init_state()
                    &&& res.1 is Nothing
                },
            },
    {
        match msg {
            LocalMessage::ReqWorkerActiveStatus(_) => (
                Some(Message::LocalMessage(LocalMessage::AckWorkerActiveStatus(self.active_status))),
                NodeEffect::Nothing,
            ),
            LocalMessage::ReqNodeDistributeTask(current_block_index) => {
                let _ = self.node_db.reset_temp_db();
                if *current_block_index >= self.last_distribute_block && *current_block_index
                    - self.last_distribute_block == DISTRIBUTE_INTERVAL {
                    (None, NodeEffect::GetTaskList(*current_block_index))
                } else {
                    (None, NodeEffect::Nothing)
                }
            },
            LocalMessage::ReqKeeperInit() => {
                self.init = InitState::Idle;
                let action = self.verify_node_init(InitEvent::Start);
                (None, NodeEffect::Init(action))
            },
            _ => (None, NodeEffect::Nothing),
        }
    }

    /// The answer to `ReqKeeperInit` that a step of the initialisation
    /// ends with: `true` where it is done, `false` where it failed, none
    /// while it goes on.
    pub fn init_reply(action: &InitAction) -> (reply: Option<Message>)
        ensures
            match *action {
                InitAction::Done => reply matches Some(
                    Message::LocalMessage(LocalMessage::AckKeeperInit(true)),
                ),
                InitAction::Fail(_) => reply matches Some(
                    Message::LocalMessage(LocalMessage::AckKeeperInit(false)),
                ),
                _ => reply is None,
            },
    {
        match action {
            InitAction::Done => Some(Message::LocalMessage(LocalMessage::AckKeeperInit(true))),
            InitAction::Fail(_) => Some(Message::LocalMessage(LocalMessage::AckKeeperInit(false))),
            _ => None,
        }
    }

    /// Ends the initialisation with a failure.
    fn fail(&mut self, message: &str) -> (action: InitAction)
        ensures
            action matches InitAction::Fail(text) && text@ == message@,
            final(self).init_state() == InitState::Idle,
            final(self).nodes() == old(self).nodes(),
            final(self).assignments() == old(self).assignments(),
            final(self).distributed_at() == old(self).distributed_at(),
            final(self).tries() == old(self).tries(),
            final(self).peer() == old(self).peer(),
            final(self).active() == old(self).active(),
            final(self).principal() == old(self).principal(),
            final(self).account() == old(self).account(),
            final(self).public_key() == old(self).public_key(),
            final(self).pending() is None,
    {
        self.init = InitState::Idle;
        self.pending = None;
        InitAction::Fail(message.to_owned())
    }

    /// Does one step of the initialisation of a verifier: takes what came
    /// of the last step, and says what is to be done next.
    ///
    /// 1. The current block must be the block of index 0, else the node
    ///    "had inited".
    /// 2. The node must be a keeper.
    /// 3. The node signs its own activation.
    /// 4. The node and the signed activation are stored; the node joins
    ///    the node list as an online verifier.
    /// 5. The block engine records the activation with the roots.
    /// 6. The task state machine makes the genesis tasks.
    /// 7. The block engine starts its cadence.
    ///
    /// An event that the step does not wait for ends the initialisation.
    pub fn verify_node_init(&mut self, event: InitEvent) -> (action: InitAction)
        ensures
            final(self).account() == old(self).account(),
            final(self).public_key() == old(self).public_key(),
            action is Fail || action is Done ==> final(self).pending() is None,
            final(self).assignments() == old(self).assignments(),
            final(self).distributed_at() == old(self).distributed_at(),
            final(self).peer() == old(self).peer(),
            final(self).active() == old(self).active(),
            final(self).principal() == old(self).principal(),
            !(old(self).init_state() == InitState::AwaitEncoded && event is Encoded) ==> {
                &&& final(self).nodes() == old(self).nodes()
                &&& final(self).tries() == old(self).tries()
            },
            action is Fail || action is Done ==> final(self).init_state() == InitState::Idle,
            match (old(self).init_state(), event) {
                (InitState::Idle, InitEvent::Start) => {
                    &&& final(self).init_state() == InitState::AwaitBlock
                    &&& action matches InitAction::Call(
                        InitTarget::Blockchain,
                        LocalMessage::ReqBlockCurrent(),
                    )
                },
                (InitState::AwaitBlock, InitEvent::Reply(reply)) => match block_index(reply) {
                    Some(index) => if index == 0 {
                        final(self).init_state() == InitState::AwaitKeepers && action is AskKeepers
                    } else {
                        action matches InitAction::Fail(text) && text@ == "node had inited"@
                    },
                    None => action matches InitAction::Fail(text) && text@
                        == "Can't get block info now!"@,
                },
                (InitState::AwaitKeepers, InitEvent::Keepers(check)) => match check {
                    KeeperCheck::NoKey => action matches InitAction::Fail(text) && text@
                        == "verify node init can not get local key"@,
                    KeeperCheck::Failed(why) => action matches InitAction::Fail(text) && text@
                        == why@,
                    KeeperCheck::NotKeeper => action matches InitAction::Fail(text) && text@
                        == "You are not verify node!"@,
                    KeeperCheck::Keeper => {
                        &&& final(self).init_state() == InitState::AwaitSignature
                        &&& action matches InitAction::Sign(activation)
                        &&& activation.operation
                            == crate::blockchain::db::ActivationOperation::Activate
                        &&& activation.peer_id@ == old(self).peer()
                        &&& activation.account@ == old(self).account()
                        &&& activation.pub_key@ == old(self).public_key()
                    },
                },
                (InitState::AwaitSignature, InitEvent::Signature(signature)) => match signature {
                    Some(bytes) => {
                        &&& final(self).init_state() == InitState::AwaitEncoded
                        &&& action matches InitAction::Encode(node, signed)
                        &&& node.is_fresh(
                            old(self).peer(),
                            old(self).principal(),
                            NodeStatus::Online,
                            NodeActiveStatus::Inactived,
                            NodeType::Verify,
                        )
                        &&& signed@ == old(self).own_activation(bytes@)
                        &&& final(self).pending() == Some(old(self).own_activation(bytes@))
                    },
                    None => action matches InitAction::Fail(text) && text@
                        == "Verify node init sign node active message fail!"@,
                },
                (InitState::AwaitEncoded, InitEvent::Encoded(node_bytes, activation_bytes)) => if node_bytes@.len()
                    > u32::MAX || activation_bytes@.len() > u32::MAX {
                    &&& action matches InitAction::Fail(text)
                    &&& text@ == "record too long"@
                    &&& final(self).nodes() == old(self).nodes()
                    &&& final(self).tries() == old(self).tries()
                } else if old(self).pending() is None {
                    &&& action matches InitAction::Fail(text)
                    &&& text@ == "unexpected event"@
                    &&& final(self).nodes() == old(self).nodes()
                    &&& final(self).tries() == old(self).tries()
                } else {
                    ||| {
                        &&& action is Fail
                        &&& final(self).nodes() == old(self).nodes()
                    }
                    ||| {
                        &&& signed_of(action) == old(self).pending()
                        &&& final(self).pending() is None
                        &&& final(self).init_state() == InitState::AwaitSaved
                        &&& final(self).nodes().len() == old(self).nodes().len() + 1
                        &&& final(self).nodes().drop_last() == old(self).nodes()
                        &&& final(self).nodes().last().is_fresh(
                            old(self).peer(),
                            old(self).principal(),
                            NodeStatus::Online,
                            NodeActiveStatus::Inactived,
                            NodeType::Verify,
                        )
                        &&& final(self).tries().node_db.entries() == with_entry(
                            old(self).tries().node_db.entries(),
                            keccak256(node_bytes@),
                            node_bytes@,
                        )
                        &&& final(self).tries().node_active_db.entries() == with_entry(
                            old(self).tries().node_active_db.entries(),
                            keccak256(activation_bytes@),
                            activation_bytes@,
                        )
                        &&& final(self).tries().temp_node_active_db.entries() == with_entry(
                            old(self).tries().temp_node_active_db.entries(),
                            keccak256(activation_bytes@),
                            activation_bytes@,
                        )
                        &&& action matches InitAction::Call(
                            InitTarget::Blockchain,
                            LocalMessage::ReqBlockSaveNodeActivation(signed, a, b, c),
                        )
                        &&& a@ == final(self).tries().node_db.root()
                        &&& b@ == final(self).tries().node_active_db.root()
                        &&& c@ == final(self).tries().temp_node_active_db.root()
                    }
                },
                (InitState::AwaitSaved, InitEvent::Reply(reply)) => if acknowledged(
                    InitState::AwaitSaved,
                    reply,
                ) {
                    final(self).init_state() == InitState::AwaitTaskInit
                        && action matches InitAction::Call(
                        InitTarget::Task,
                        LocalMessage::ReqTaskInitGenesis(),
                    )
                } else {
                    action matches InitAction::Fail(text) && text@ == "Init genesis block fail!"@
                },
                (InitState::AwaitTaskInit, InitEvent::Reply(reply)) => if acknowledged(
                    InitState::AwaitTaskInit,
                    reply,
                ) {
                    final(self).init_state() == InitState::AwaitTick
                        && action matches InitAction::Call(
                        InitTarget::Blockchain,
                        LocalMessage::ReqBlockStartTick(),
                    )
                } else {
                    action matches InitAction::Fail(text) && text@ == "init genesis block fail!"@
                },
                (InitState::AwaitTick, InitEvent::Reply(reply)) => if acknowledged(
                    InitState::AwaitTick,
                    reply,
                ) {
                    action is Done
                } else {
                    action matches InitAction::Fail(text) && text@ == "start block tick fail!"@
                },
                _ => action matches InitAction::Fail(text) && text@ == "unexpected event"@,
            },
    {
        let state = self.init;
        match (state, event) {
            (InitState::Idle, InitEvent::Start) => {
                self.init = InitState::AwaitBlock;
                InitAction::Call(InitTarget::Blockchain, LocalMessage::ReqBlockCurrent())
            },
            (InitState::AwaitBlock, InitEvent::Reply(reply)) => {
                match read_block_index(&reply) {
                    Some(index) => {
                        if index != 0 {
                            self.fail("node had inited")
                        } else {
                            self.init = InitState::AwaitKeepers;
                            InitAction::AskKeepers
                        }
                    },
                    None => self.fail("Can't get block info now!"),
                }
            },
            (InitState::AwaitKeepers, InitEvent::Keepers(check)) => {
                match check {
                    KeeperCheck::NoKey => self.fail("verify node init can not get local key"),
                    KeeperCheck::Failed(why) => self.fail(why.as_str()),
                    KeeperCheck::NotKeeper => self.fail("You are not verify node!"),
                    KeeperCheck::Keeper => {
                        self.init = InitState::AwaitSignature;
                        InitAction::Sign(
                            self_activation(&self.peer_id, &self.account, &self.pub_key),
                        )
                    },
                }
            },
            (InitState::AwaitSignature, InitEvent::Signature(signature)) => {
                match signature {
                    Some(bytes) => {
                        let signed = NeedSignData {
                            data: self_activation(&self.peer_id, &self.account, &self.pub_key),
                            signature: bytes,
                        };
                        let copy = signed.duplicate();
                        self.pending = Some(signed);
                        self.init = InitState::AwaitEncoded;
                        InitAction::Encode(self.own_node(), copy)
                    },
                    None => self.fail("Verify node init sign node active message fail!"),
                }
            },
            (InitState::AwaitEncoded, InitEvent::Encoded(node_bytes, activation_bytes)) => {
                if node_bytes.len() > u32::MAX as usize || activation_bytes.len()
                    > u32::MAX as usize {
                    return self.fail("record too long");
                }
                let signed = match self.pending.take() {
                    Some(signed) => signed,
                    None => {
                        return self.fail("unexpected event");
                    },
                };
                match self.store_self(&node_bytes, &activation_bytes) {
                    Ok(_) => {
                        let node = self.own_node();
                        self.node_list.push(node);
                        assert(self.node_list@.drop_last() =~= old(self).nodes());
                        self.init = InitState::AwaitSaved;
                        InitAction::Call(
                            InitTarget::Blockchain,
                            LocalMessage::ReqBlockSaveNodeActivation(
                                signed,
                                self.node_db.node_db.get_root(),
                                self.node_db.node_active_db.get_root(),
                                self.node_db.temp_node_active_db.get_root(),
                            ),
                        )
                    },
                    Err(why) => self.fail_with(why.message),
                }
            },
            (InitState::AwaitSaved, InitEvent::Reply(reply)) => {
                if is_acknowledged(InitState::AwaitSaved, &reply) {
                    self.init = InitState::AwaitTaskInit;
                    InitAction::Call(InitTarget::Task, LocalMessage::ReqTaskInitGenesis())
                } else {
                    self.fail("Init genesis block fail!")
                }
            },
            (InitState::AwaitTaskInit, InitEvent::Reply(reply)) => {
                if is_acknowledged(InitState::AwaitTaskInit, &reply) {
                    self.init = InitState::AwaitTick;
                    InitAction::Call(InitTarget::Blockchain, LocalMessage::ReqBlockStartTick())
                } else {
                    self.fail("init genesis block fail!")
                }
            },
            (InitState::AwaitTick, InitEvent::Reply(reply)) => {
                if is_acknowledged(InitState::AwaitTick, &reply) {
                    self.init = InitState::Idle;
                    self.pending = None;
                    InitAction::Done
                } else {
                    self.fail("start block tick fail!")
                }
            },
            _ => self.fail("unexpected event"),
        }
    }

    /// Ends the initialisation with a failure of the store.
    fn fail_with(&mut self, message: String) -> (action: InitAction)
        ensures
            action matches InitAction::Fail(text) && text == message,
            final(self).init_state() == InitState::Idle,
            final(self).nodes() == old(self).nodes(),
            final(self).assignments() == old(self).assignments(),
            final(self).distributed_at() == old(self).distributed_at(),
            final(self).tries() == old(self).tries(),
            final(self).peer() == old(self).peer(),
            final(self).active() == old(self).active(),
            final(self).principal() == old(self).principal(),
            final(self).account() == old(self).account(),
            final(self).public_key() == old(self).public_key(),
            final(self).pending() is None,
    {
        self.init = InitState::Idle;
        self.pending = None;
        InitAction::Fail(message)
    }

    /// Records the node itself and its signed activation in the tries,
    /// given their encodings.
    fn store_self(&mut self, node_bytes: &Vec<u8>, activation_bytes: &Vec<u8>) -> (res: Result<()>)
        requires
            node_bytes@.len() <= u32::MAX,
            activation_bytes@.len() <= u32::MAX,
        ensures
            final(self).account() == old(self).account(),
            final(self).public_key() == old(self).public_key(),
            final(self).pending() == old(self).pending(),
            final(self).nodes() == old(self).nodes(),
            final(self).assignments() == old(self).assignments(),
            final(self).distributed_at() == old(self).distributed_at(),
            final(self).init_state() == old(self).init_state(),
            final(self).peer() == old(self).peer(),
            final(self).active() == old(self).active(),
            final(self).principal() == old(self).principal(),
            res is Ok ==> {
                &&& final(self).tries().node_db.entries() == with_entry(
                    old(self).tries().node_db.entries(),
                    keccak256(node_bytes@),
                    node_bytes@,
                )
                &&& final(self).tries().node_active_db.entries() == with_entry(
                    old(self).tries().node_active_db.entries(),
                    keccak256(activation_bytes@),
                    activation_bytes@,
                )
                &&& final(self).tries().temp_node_active_db.entries() == with_entry(
                    old(self).tries().temp_node_active_db.entries(),
                    keccak256(activation_bytes@),
                    activation_bytes@,
                )
            },
    {
        match self.node_db.insert_node(node_bytes.as_slice()) {
            Ok(()) => {},
            Err(e) => {
                return Err(e);
            },
        }
        self.node_db.insert_node_activation(activation_bytes.as_slice())
    }

    /// The node itself as the node list keeps it: an online verifier,
    /// bound to its principal.
    fn own_node(&self) -> (node: NodeData)
        ensures
            node.is_fresh(
                self.peer(),
                self.principal(),
                NodeStatus::Online,
                NodeActiveStatus::Inactived,
                NodeType::Verify,
            ),
    {
        NodeData::fresh(
            self.peer_id.clone(),
            self.config.principal_id.clone(),
            NodeStatus::Online,
            NodeActiveStatus::Inactived,
            NodeType::Verify,
        )
    }
}

/// The signed activation that a step of the initialisation asks the
/// block engine to record, if it asks for that.
pub open spec fn signed_of(action: InitAction) -> Option<ActivationView> {
    match action {
        InitAction::Call(_, LocalMessage::ReqBlockSaveNodeActivation(signed, _, _, _)) => Some(
            signed@,
        ),
        _ => None,
    }
}

/// The request to the node state machine for the active status of the
/// node, stamped with the time given.
pub fn active_status_request(timestamp: String) -> (msg: Message)
    ensures
        msg matches Message::LocalMessage(LocalMessage::ReqWorkerActiveStatus(t)) && t
            == timestamp,
{
    Message::LocalMessage(LocalMessage::ReqWorkerActiveStatus(timestamp))
}

/// The text with which [`check_node_active_status`] fails on an answer.
pub open spec fn active_status_failure(
    answer: std::result::Result<Option<Message>, crate::message::MessageError>,
) -> Seq<char> {
    match answer {
        Err(_) => "Check node active status msg send fail!"@,
        Ok(None) => "Check node active status msg receive none!"@,
        Ok(Some(_)) => "Get node active status fail!"@,
    }
}

/// Reads the active status of the node from the answer of the node state
/// machine. Fails where the request could not be sent, where no answer
/// came, and where the answer is not the status.
pub fn check_node_active_status(
    answer: std::result::Result<Option<Message>, crate::message::MessageError>,
) -> (res: std::result::Result<NodeActiveStatus, crate::error::WError>)
    ensures
        match answer {
            Ok(Some(Message::LocalMessage(LocalMessage::AckWorkerActiveStatus(status)))) => res
                == Ok::<NodeActiveStatus, crate::error::WError>(status),
            _ => res is Err && res.unwrap_err().code == crate::error::ErrorCode::NodeError
                && res.unwrap_err().message@ == active_status_failure(answer),
        },
{
    let message = match answer {
        Ok(Some(Message::LocalMessage(LocalMessage::AckWorkerActiveStatus(status)))) => {
            return Ok(status);
        },
        Err(_) => "Check node active status msg send fail!",
        Ok(None) => "Check node active status msg receive none!",
        Ok(Some(_)) => "Get node active status fail!",
    };
    Err(
        crate::error::WError {
            code: crate::error::ErrorCode::NodeError,
            message: message.to_owned(),
        },
    )
}

/// The catalog that an answer of the task state machine holds: empty
/// where it is no such answer.
pub open spec fn task_list(reply: Option<Message>) -> Seq<TaskData> {
    match reply {
        Some(Message::LocalMessage(LocalMessage::GetTaskListResponse(list))) => list@,
        _ => Seq::empty(),
    }
}

/// A copy of a list of assignments.
pub fn copy_assignments(list: &Vec<TaskDistributeData>) -> (copy: Vec<TaskDistributeData>)
    ensures
        assignments_view(copy@) == assignments_view(list@),
{
    let mut copy: Vec<TaskDistributeData> = Vec::new();
    let mut i: usize = 0;
    while i < list.len()
        invariant
            i <= list@.len(),
            copy@.len() == i,
            forall|j: int|
                0 <= j < i ==> (#[trigger] copy@[j]).task_id == list@[j].task_id
                    && copy@[j].peer_id@ == list@[j].peer_id@,
        decreases list@.len() - i,
    {
        copy.push(TaskDistributeData { task_id: list[i].task_id, peer_id: list[i].peer_id.clone() });
        i += 1;
    }
    assert(assignments_view(copy@) =~= assignments_view(list@));
    copy
}

impl NetworkModule for NodeModule {
    closed spec fn subscriptions(&self) -> Seq<(Topics, Caller)> {
        self.message_subscribe@
    }

    closed spec fn network_caller(&self) -> Caller {
        self.network_caller
    }

    // send data to network
    fn set_message_caller(&mut self, caller: Caller) {
        self.network_caller = caller;
    }

    // receive data from network
    fn get_message_subscribe(&self) -> (subscribe: Vec<(Topics, Caller)>) {
        copy_subscriptions(&self.message_subscribe)
    }
}

impl LocalMessageModule for NodeModule {
    closed spec fn message_caller(&self) -> Caller {
        self.message_waiter
    }

    fn get_message_caller(&self) -> (caller: Caller) {
        self.message_waiter
    }
}

} // verus!
