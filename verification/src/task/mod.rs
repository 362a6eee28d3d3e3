//! The task state machine: the catalog of tasks, and the tasks of this node.

use self::db::TaskDB;
use self::error::{Result, TaskError};
use crate::blockchain::db::{TaskOperation, TaskOperationType};
use crate::database::data_types::{
    copy_tasks, TaskData, TaskDistributeData, TaskStatus, TaskType,
};
use crate::database::keccak::{hash, keccak256};
use crate::database::trie::{no_entries, with_entry};
use crate::message::{Caller, LocalMessage, LocalMessageModule, Message};
use crate::network::topics::{SubTopics, TopicMessage, Topics};
use crate::network::{copy_subscriptions, NetworkModule};
use crate::node::distribute::{assignments_view, Assignment};
use crate::node::Publication;
use vstd::prelude::*;

pub mod db;
pub mod error;

verus! {

/// Nodes that may take a genesis task.
pub const GENESIS_NODE_LIMIT: u64 = 100;

/// What the task state machine asks of its surroundings.
#[derive(Debug)]
pub enum TaskEffect {
    /// Nothing.
    Nothing,
    /// Send the message out on the overlay.
    Publish(Publication),
    /// Answer a request for the catalog: send the catalog out, encoded, as
    /// `AckTaskList` on the topic of the task list.
    AnswerTaskList(Vec<TaskData>),
    /// These are the assignments of this node.
    Assigned(Vec<TaskDistributeData>),
    /// Run these tasks.
    Invoke(Vec<TaskData>),
    /// Make the genesis tasks: encode what [`TaskModule::genesis_plan`]
    /// returns, send what [`TaskModule::genesis_store`] returns to the
    /// block engine, and hand the answer to
    /// [`TaskModule::genesis_init_task`].
    Genesis,
}

/// The two tasks that the chain starts with, each as the operation that
/// adds it and as the task itself.
#[derive(Debug)]
pub struct GenesisPlan {
    pub operations: Vec<TaskOperation>,
    pub tasks: Vec<TaskData>,
}

/// The encodings of the genesis tasks and of their operations.
#[derive(Debug)]
pub struct GenesisEncoding {
    pub operation_one: Vec<u8>,
    pub task_one: Vec<u8>,
    pub operation_two: Vec<u8>,
    pub task_two: Vec<u8>,
}

impl GenesisEncoding {
    /// Whether one of the encodings is too long for a trie.
    pub open spec fn too_long(&self) -> bool {
        ||| self.operation_one@.len() > u32::MAX
        ||| self.operation_two@.len() > u32::MAX
        ||| self.task_one@.len() > u32::MAX
        ||| self.task_two@.len() > u32::MAX
    }
}

/// What a trie holds after `bytes` were recorded under their hash.
pub open spec fn with_record(entries: Map<Seq<u8>, Seq<u8>>, bytes: Seq<u8>) -> Map<
    Seq<u8>,
    Seq<u8>,
> {
    with_entry(entries, keccak256(bytes), bytes)
}

pub struct TaskModule {
    pub db: TaskDB,
    peer_id: String,
    message_waiter: Caller,
    network_caller: Caller,
    message_subscribe: Vec<(Topics, Caller)>,
    all_task_list: Vec<TaskData>,
    running_task_list: Vec<TaskData>,
}

/// The bytes of `one`.
pub open spec fn name_one() -> Seq<u8> {
    seq![0x6fu8, 0x6eu8, 0x65u8]
}

/// The bytes of `two`.
pub open spec fn name_two() -> Seq<u8> {
    seq![0x74u8, 0x77u8, 0x6fu8]
}

/// The operation that adds genesis task `id` (1 or 2): a long-term task
/// for 100 nodes, with weight 100 times its number, whose binary is known
/// by the hash of its name.
pub open spec fn genesis_operation(id: u64, op: TaskOperation) -> bool {
    &&& op.id == id
    &&& op.operation == TaskOperationType::Add
    &&& op.binary_hash@ == keccak256(
        if id == 1 {
            name_one()
        } else {
            name_two()
        },
    )
    &&& op.task_type == TaskType::LongTerm
    &&& op.node_limit == GENESIS_NODE_LIMIT
    &&& op.reward_weight == 100 * id
}

/// The task that an operation adds: enabled, and run by no node yet.
pub open spec fn added_task(op: TaskOperation, task: TaskData) -> bool {
    &&& task.id == op.id
    &&& task.hash == op.binary_hash
    &&& task.task_type == op.task_type
    &&& task.node_limit == op.node_limit
    &&& task.current_node_num == 0
    &&& task.status == TaskStatus::Enable
    &&& task.reward_weight == op.reward_weight
}

/// The task that an operation adds.
pub fn task_of(op: &TaskOperation) -> (task: TaskData)
    ensures
        added_task(*op, task),
{
    TaskData {
        id: op.id,
        hash: op.binary_hash,
        task_type: op.task_type,
        node_limit: op.node_limit,
        current_node_num: 0,
        status: TaskStatus::Enable,
        reward_weight: op.reward_weight,
    }
}

/// The assignments of `list` that go to `peer`, in their order.
pub open spec fn assigned_to(list: Seq<Assignment>, peer: Seq<char>) -> Seq<Assignment> {
    list.filter(|a: Assignment| a.1 == peer)
}

impl TaskModule {
    /// The catalog.
    pub closed spec fn catalog(&self) -> Seq<TaskData> {
        self.all_task_list@
    }

    /// The peer of the node.
    pub closed spec fn peer(&self) -> Seq<char> {
        self.peer_id@
    }

    /// The tries.
    pub closed spec fn tries(&self) -> TaskDB {
        self.db
    }

    /// The state machine of the node with the given peer, with an empty
    /// catalog. `waiter` reaches the state machine's own waiter.
    pub fn new(db: TaskDB, peer_id: String, waiter: Caller) -> (res: Result<TaskModule>)
        ensures
            res matches Ok(task) && task.catalog().len() == 0 && task.peer() == peer_id@
                && task.tries() == db && task.subscriptions().len() == 2
                && task.subscriptions()[0].0 == Topics::TakeTask && task.subscriptions()[1].0
                == Topics::TaskList && task.subscriptions()[0].1 == waiter
                && task.subscriptions()[1].1 == waiter && task.message_caller() == waiter,
    {
        let mut message_subscribe: Vec<(Topics, Caller)> = Vec::new();
        message_subscribe.push((Topics::TakeTask, waiter));
        message_subscribe.push((Topics::TaskList, waiter));
        Ok(
            TaskModule {
                db,
                peer_id,
                network_caller: waiter,
                message_waiter: waiter,
                message_subscribe,
                all_task_list: Vec::new(),
                running_task_list: Vec::new(),
            },
        )
    }

    /// The catalog.
    pub fn all_task_list(&self) -> (list: &Vec<TaskData>)
        ensures
            list@ == self.catalog(),
    {
        &self.all_task_list
    }

    /// The genesis tasks: tasks 1 and 2, each with the operation that adds it.
    pub fn genesis_plan() -> (plan: GenesisPlan)
        ensures
            plan.operations@.len() == 2,
            plan.tasks@.len() == 2,
            genesis_operation(1, plan.operations@[0]),
            genesis_operation(2, plan.operations@[1]),
            added_task(plan.operations@[0], plan.tasks@[0]),
            added_task(plan.operations@[1], plan.tasks@[1]),
    {
        let name_one: [u8; 3] = [0x6f, 0x6e, 0x65];
        let name_two: [u8; 3] = [0x74, 0x77, 0x6f];
        assert(name_one@ =~= self::name_one());
        assert(name_two@ =~= self::name_two());
        let task_one_add_operation = TaskOperation {
            id: 1,
            operation: TaskOperationType::Add,
            binary_hash: hash(name_one.as_slice()),
            task_type: TaskType::LongTerm,
            node_limit: GENESIS_NODE_LIMIT,
            reward_weight: 100,
        };
        let task_two_add_operation = TaskOperation {
            id: 2,
            operation: TaskOperationType::Add,
            binary_hash: hash(name_two.as_slice()),
            task_type: TaskType::LongTerm,
            node_limit: GENESIS_NODE_LIMIT,
            reward_weight: 200,
        };
        let mut tasks: Vec<TaskData> = Vec::new();
        tasks.push(task_of(&task_one_add_operation));
        tasks.push(task_of(&task_two_add_operation));
        let mut operations: Vec<TaskOperation> = Vec::new();
        operations.push(task_one_add_operation);
        operations.push(task_two_add_operation);
        GenesisPlan { operations, tasks }
    }

    /// Records the genesis tasks in the tries, given the encodings of the
    /// two operations and of the two tasks, and returns the request to the
    /// block engine to record the operations, with the roots of the tries
    /// of the tasks and of the operations.
    ///
    /// Fails where a trie fails, and where an encoding is too long for a trie.
    pub fn genesis_store(&mut self, plan: &GenesisPlan, encoded: &GenesisEncoding) -> (res: Result<
        LocalMessage,
    >)
        ensures
            final(self).peer() == old(self).peer(),
            final(self).catalog() == old(self).catalog(),
            encoded.too_long() ==> res is Err && final(self).tries() == old(self).tries(),
            res matches Ok(request) ==> {
                &&& request matches LocalMessage::ReqBlockSaveTaskOperation(operations, a, b, c)
                &&& operations@ == plan.operations@
                &&& a@ == final(self).tries().task_db.root()
                &&& b@ == final(self).tries().task_operation_db.root()
                &&& c@ == final(self).tries().temp_task_operation_db.root()
                &&& final(self).tries().task_db.entries() == with_record(
                    with_record(old(self).tries().task_db.entries(), encoded.task_one@),
                    encoded.task_two@,
                )
                &&& final(self).tries().task_operation_db.entries() == with_record(
                    with_record(
                        old(self).tries().task_operation_db.entries(),
                        encoded.operation_one@,
                    ),
                    encoded.operation_two@,
                )
                &&& final(self).tries().temp_task_operation_db.entries() == with_record(
                    with_record(
                        old(self).tries().temp_task_operation_db.entries(),
                        encoded.operation_one@,
                    ),
                    encoded.operation_two@,
                )
            },
    {
        let limit = u32::MAX as usize;
        if encoded.operation_one.len() > limit || encoded.operation_two.len() > limit
            || encoded.task_one.len() > limit || encoded.task_two.len() > limit {
            return Err(TaskError { message: "record too long".to_owned() });
        }
        match self.db.insert_task_operation(encoded.operation_one.as_slice()) {
            Ok(()) => {},
            Err(e) => {
                return Err(e);
            },
        }
        match self.db.insert_task(encoded.task_one.as_slice()) {
            Ok(()) => {},
            Err(e) => {
                return Err(e);
            },
        }
        match self.db.insert_task_operation(encoded.operation_two.as_slice()) {
            Ok(()) => {},
            Err(e) => {
                return Err(e);
            },
        }
        match self.db.insert_task(encoded.task_two.as_slice()) {
            Ok(()) => {},
            Err(e) => {
                return Err(e);
            },
        }
        Ok(
            LocalMessage::ReqBlockSaveTaskOperation(
                crate::blockchain::db::copy_operations(&plan.operations),
                self.db.task_db.get_root(),
                self.db.task_operation_db.get_root(),
                self.db.temp_task_operation_db.get_root(),
            ),
        )
    }

    /// Whether the block engine recorded the operations.
    pub open spec fn saved(reply: Option<Message>) -> bool {
        reply matches Some(Message::LocalMessage(LocalMessage::AckBlockSaveTaskOperation(true)))
    }

    /// Ends the making of the genesis tasks, with the answer of the block
    /// engine: where it recorded the operations, the tasks join the
    /// catalog; else the making fails, and the catalog stays as it was.
    pub fn genesis_init_task(&mut self, plan: GenesisPlan, reply: Option<Message>) -> (res: Result<()>)
        ensures
            final(self).peer() == old(self).peer(),
            final(self).tries() == old(self).tries(),
            Self::saved(reply) ==> res is Ok && final(self).catalog() == old(self).catalog()
                + plan.tasks@,
            !Self::saved(reply) ==> res is Err && res.unwrap_err().message@ == "init task fail"@
                && final(self).catalog() == old(self).catalog(),
    {
        let res = match reply {
            Some(Message::LocalMessage(LocalMessage::AckBlockSaveTaskOperation(res))) => res,
            _ => false,
        };
        if !res {
            return Err(TaskError { message: "init task fail".to_owned() });
        }
        let mut tasks = plan.tasks;
        self.all_task_list.append(&mut tasks);
        Ok(())
    }

    /// The question for the catalog, to go out where this node has none.
    pub fn check_task_list(&self) -> (res: Option<Publication>)
        ensures
            self.catalog().len() > 0 ==> res is None,
            self.catalog().len() == 0 ==> {
                &&& res matches Some(p)
                &&& p.peer_id is None
                &&& p.topic == Topics::TaskList
                &&& p.message.sub_topic == SubTopics::ReqTaskList
                &&& p.message.data@.len() == 0
            },
    {
        if self.all_task_list.len() == 0 {
            Some(require_task_list())
        } else {
            None
        }
    }

    /// Serves a message of a peer. `tasks` is the decoded payload of an
    /// `AckTaskList`.
    ///
    /// * `AckTaskList` replaces the catalog.
    /// * `DistributeTask` gives the assignments of this node: those of its peer.
    /// * `ReqTaskList` is to be answered with the catalog.
    /// * Any other message is ignored.
    pub fn deal_peer_message(&mut self, msg: &TopicMessage, tasks: Option<Vec<TaskData>>) -> (effect:
        TaskEffect)
        requires
            msg.sub_topic is AckTaskList ==> tasks is Some,
        ensures
            final(self).peer() == old(self).peer(),
            final(self).tries() == old(self).tries(),
            match msg.sub_topic {
                SubTopics::AckTaskList => effect is Nothing && final(self).catalog()
                    == tasks.unwrap()@,
                SubTopics::DistributeTask(list) => {
                    &&& final(self).catalog() == old(self).catalog()
                    &&& effect matches TaskEffect::Assigned(mine)
                    &&& assignments_view(mine@) == assigned_to(
                        assignments_view(list@),
                        old(self).peer(),
                    )
                },
                SubTopics::ReqTaskList => {
                    &&& final(self).catalog() == old(self).catalog()
                    &&& effect matches TaskEffect::AnswerTaskList(catalog)
                    &&& catalog@ == old(self).catalog()
                },
                _ => effect is Nothing && final(self).catalog() == old(self).catalog(),
            },
    {
        match &msg.sub_topic {
            SubTopics::AckTaskList => {
                self.all_task_list = tasks.unwrap();
                TaskEffect::Nothing
            },
            SubTopics::DistributeTask(task_list) => TaskEffect::Assigned(
                assignments_of(task_list, &self.peer_id),
            ),
            SubTopics::ReqTaskList => TaskEffect::AnswerTaskList(copy_tasks(&self.all_task_list)),
            _ => TaskEffect::Nothing,
        }
    }

    /// `deal_local_message` will deal the local message comunication
    ///
    /// * `RequireTask` sends the question for the catalog out.
    /// * `InvokeTask` runs the tasks of the catalog.
    /// * `GetTaskList` is answered with the catalog.
    /// * `ReqTaskInitGenesis` makes the genesis tasks.
    /// * `BlockTick` tells that a block was packed: the scratch tries start
    ///   empty again.
    /// * Any other message is ignored.
    pub fn deal_local_message(&mut self, msg: &LocalMessage) -> (res: (Option<Message>, TaskEffect))
        ensures
            final(self).peer() == old(self).peer(),
            final(self).catalog() == old(self).catalog(),
            !(*msg is BlockTick) ==> final(self).tries() == old(self).tries(),
            match *msg {
                LocalMessage::BlockTick() => {
                    &&& res.0 is None
                    &&& res.1 is Nothing
                    &&& final(self).tries().task_db == old(self).tries().task_db
                    &&& final(self).tries().task_operation_db == old(self).tries().task_operation_db
                    &&& final(self).tries().task_result_db == old(self).tries().task_result_db
                    &&& final(self).tries().temp_task_operation_db.entries() == no_entries()
                    &&& final(self).tries().temp_task_result_db.entries() == no_entries()
                },
                LocalMessage::RequireTask() => {
                    &&& res.0 is None
                    &&& res.1 matches TaskEffect::Publish(p)
                    &&& p.peer_id is None
                    &&& p.topic == Topics::TaskList
                    &&& p.message.sub_topic == SubTopics::ReqTaskList
                    &&& p.message.data@.len() == 0
                },
                LocalMessage::InvokeTask() => {
                    &&& res.0 is None
                    &&& res.1 matches TaskEffect::Invoke(tasks)
                    &&& tasks@ == old(self).catalog()
                },
                LocalMessage::GetTaskList() => {
                    &&& res.1 is Nothing
                    &&& res.0 matches Some(
                        Message::LocalMessage(LocalMessage::GetTaskListResponse(tasks)),
                    )
                    &&& tasks@ == old(self).catalog()
                },
                LocalMessage::ReqTaskInitGenesis() => res.0 is None && res.1 is Genesis,
                _ => res.0 is None && res.1 is Nothing,
            },
    {
        match msg {
            LocalMessage::BlockTick() => {
                self.db.reset_temp_db();
                (None, TaskEffect::Nothing)
            },
            LocalMessage::RequireTask() => (None, TaskEffect::Publish(require_task_list())),
            LocalMessage::InvokeTask() => (
                None,
                TaskEffect::Invoke(copy_tasks(&self.all_task_list)),
            ),
            LocalMessage::GetTaskList() => (
                Some(
                    Message::LocalMessage(
                        LocalMessage::GetTaskListResponse(copy_tasks(&self.all_task_list)),
                    ),
                ),
                TaskEffect::Nothing,
            ),
            LocalMessage::ReqTaskInitGenesis() => (None, TaskEffect::Genesis),
            _ => (None, TaskEffect::Nothing),
        }
    }

    /// The answer to `ReqTaskInitGenesis`: whether the genesis tasks were made.
    pub fn genesis_reply(made: bool) -> (reply: Message)
        ensures
            reply matches Message::LocalMessage(LocalMessage::AckTaskInitGenesis(b)) && b == made,
    {
        Message::LocalMessage(LocalMessage::AckTaskInitGenesis(made))
    }
}

/// The question for the catalog.
fn require_task_list() -> (p: Publication)
    ensures
        p.peer_id is None,
        p.topic == Topics::TaskList,
        p.message.sub_topic == SubTopics::ReqTaskList,
        p.message.data@.len() == 0,
{
    Publication {
        peer_id: None,
        topic: Topics::TaskList,
        message: TopicMessage { sub_topic: SubTopics::ReqTaskList, data: Vec::new() },
    }
}

/// The assignments of `list` that go to `peer`, in their order.
pub fn assignments_of(list: &Vec<TaskDistributeData>, peer: &String) -> (mine: Vec<
    TaskDistributeData,
>)
    ensures
        assignments_view(mine@) == assigned_to(assignments_view(list@), peer@),
{
    let ghost all = assignments_view(list@);
    let ghost pred = |a: Assignment| a.1 == peer@;
    let mut mine: Vec<TaskDistributeData> = Vec::new();
    let mut i: usize = 0;
    assert(all.take(0) =~= Seq::empty());
    assert(assignments_view(mine@) =~= Seq::empty());
    proof {
        reveal(Seq::filter);
    }
    while i < list.len()
        invariant
            i <= list@.len(),
            all == assignments_view(list@),
            pred == |a: Assignment| a.1 == peer@,
            assignments_view(mine@) == all.take(i as int).filter(pred),
        decreases list@.len() - i,
    {
        let ghost before = assignments_view(mine@);
        proof {
            reveal(Seq::filter);
            assert(all.take(i + 1).drop_last() =~= all.take(i as int));
            assert(all.take(i + 1).last() == all[i as int]);
        }
        if list[i].peer_id == *peer {
            mine.push(
                TaskDistributeData { task_id: list[i].task_id, peer_id: list[i].peer_id.clone() },
            );
            assert(assignments_view(mine@) =~= before.push(all[i as int]));
        }
        i += 1;
    }
    assert(all.take(i as int) =~= all);
    mine
}

impl NetworkModule for TaskModule {
    closed spec fn subscriptions(&self) -> Seq<(Topics, Caller)> {
        self.message_subscribe@
    }

    closed spec fn network_caller(&self) -> Caller {
        self.network_caller
    }

    // send data to network
    fn set_message_caller(&mut self, caller: Caller) {
        self.network_caller = caller;
    }

    // receive data from network
    fn get_message_subscribe(&self) -> (subscribe: Vec<(Topics, Caller)>) {
        copy_subscriptions(&self.message_subscribe)
    }
}

impl LocalMessageModule for TaskModule {
    closed spec fn message_caller(&self) -> Caller {
        self.message_waiter
    }

    fn get_message_caller(&self) -> (caller: Caller) {
        self.message_waiter
    }
}

} // verus!
