//! The topics of the gossip overlay and what is sent on them.
//!
//! A topic goes over the wire by its name. Every topic of the closed set
//! is read back from its name; any other name is kept as it came, in
//! [`Topics::Unknown`].

use crate::database::data_types::{NodeActiveStatus, TaskData, TaskDistributeData};
use vstd::prelude::*;
use vstd::string::StringExecFns;

verus! {

#[derive(Debug, PartialEq, Clone, Eq, Hash)]
pub enum Topics {
    NodeStatus,
    NodeList,
    TaskList,
    TakeTask,
    TaskResult,
    NewBlock,
    DataSync,
    Vote,
    Election,
    KeepAlive,
    Unknown(String),
}

#[derive(Debug, PartialEq, Clone, Eq, Hash)]
pub enum SubTopics {
    ReqNodeList,
    AckNodeList,
    ReqTaskList,
    AckTaskList,
    ReqNodeRunStatus,
    AckNodeRunStatus,
    ReqNodeActiveStatus(String, String),
    AckNodeActiveStatus(NodeActiveStatus, String),
    UploadTaskData,
    DistributeTask(Vec<TaskDistributeData>),
    GetTaskList(Vec<i64>),
    GetTaskListResponse(Vec<TaskData>),
    Ping,
    Pong,
}

/// What is published on a topic: which kind of message it is, and the
/// encoded payload of that kind.
#[derive(Debug, PartialEq, Clone, Eq, Hash)]
pub struct TopicMessage {
    pub sub_topic: SubTopics,
    pub data: Vec<u8>,
}

/// The payload of a keep-alive.
#[derive(Debug)]
pub struct PingMessage {
    pub principal_id: String,
    pub peer_id: String,
    pub timestamp: i64,
}

/// How `std` writes a string with `Debug`: in quotes, with escapes.
pub uninterp spec fn debug_quoted(text: Seq<char>) -> Seq<char>;

/// Formats a string with `Debug`, through `format!`. The contract names
/// the text: it depends on the string alone.
#[verifier::external_body]
fn debug_string(text: &str) -> (out: String)
    ensures
        out@ == debug_quoted(text@),
{
    format!("{:?}", text)
}

/// The name of the topic with number `tag` in the closed set, in the order
/// of [`Topics`].
pub open spec fn known_name(tag: int) -> Seq<char> {
    if tag == 0 {
        "NodeStatus"@
    } else if tag == 1 {
        "NodeList"@
    } else if tag == 2 {
        "TaskList"@
    } else if tag == 3 {
        "TakeTask"@
    } else if tag == 4 {
        "TaskResult"@
    } else if tag == 5 {
        "NewBlock"@
    } else if tag == 6 {
        "DataSync"@
    } else if tag == 7 {
        "Vote"@
    } else if tag == 8 {
        "Election"@
    } else {
        "KeepAlive"@
    }
}

/// Number of topics in the closed set.
pub const KNOWN_TOPICS: usize = 10;

/// The number of the topic that `name` names, or [`KNOWN_TOPICS`] where it names none.
pub open spec fn tag_of_name(name: Seq<char>) -> int {
    if name == known_name(0) {
        0
    } else if name == known_name(1) {
        1
    } else if name == known_name(2) {
        2
    } else if name == known_name(3) {
        3
    } else if name == known_name(4) {
        4
    } else if name == known_name(5) {
        5
    } else if name == known_name(6) {
        6
    } else if name == known_name(7) {
        7
    } else if name == known_name(8) {
        8
    } else if name == known_name(9) {
        9
    } else {
        10
    }
}

impl Topics {
    /// The number of the topic in the closed set, or [`KNOWN_TOPICS`] for an unknown one.
    pub open spec fn tag(self) -> int {
        match self {
            Topics::NodeStatus => 0,
            Topics::NodeList => 1,
            Topics::TaskList => 2,
            Topics::TakeTask => 3,
            Topics::TaskResult => 4,
            Topics::NewBlock => 5,
            Topics::DataSync => 6,
            Topics::Vote => 7,
            Topics::Election => 8,
            Topics::KeepAlive => 9,
            Topics::Unknown(_) => 10,
        }
    }

    /// The name that an unknown topic came with; empty for a known one.
    pub open spec fn text(self) -> Seq<char> {
        match self {
            Topics::Unknown(name) => name@,
            _ => Seq::empty(),
        }
    }

    /// The topic as a value: its number and, for an unknown one, its name.
    pub open spec fn view(self) -> (int, Seq<char>) {
        (self.tag(), self.text())
    }

    /// The topic that a name stands for.
    pub open spec fn of_name(name: Seq<char>) -> (int, Seq<char>) {
        if tag_of_name(name) < 10 {
            (tag_of_name(name), Seq::empty())
        } else {
            (10, name)
        }
    }

    /// The topic that a name stands for, with the name itself where it is unknown.
    pub open spec fn read(name: String) -> Topics {
        let tag = tag_of_name(name@);
        if tag == 0 {
            Topics::NodeStatus
        } else if tag == 1 {
            Topics::NodeList
        } else if tag == 2 {
            Topics::TaskList
        } else if tag == 3 {
            Topics::TakeTask
        } else if tag == 4 {
            Topics::TaskResult
        } else if tag == 5 {
            Topics::NewBlock
        } else if tag == 6 {
            Topics::DataSync
        } else if tag == 7 {
            Topics::Vote
        } else if tag == 8 {
            Topics::Election
        } else if tag == 9 {
            Topics::KeepAlive
        } else {
            Topics::Unknown(name)
        }
    }

    /// The name that the topic goes over the wire by: for a topic of the
    /// closed set its own name, for an unknown one what `Debug` writes.
    pub open spec fn wire_name(self) -> Seq<char> {
        match self {
            Topics::Unknown(name) => "Unknown("@ + debug_quoted(name@) + ")"@,
            _ => known_name(self.tag()),
        }
    }

    /// Reads a topic from its name.
    pub fn from_name(name: String) -> (topic: Topics)
        ensures
            topic@ == Topics::of_name(name@),
            topic == Topics::read(name),
    {
        if name == "NodeStatus".to_owned() {
            Topics::NodeStatus
        } else if name == "NodeList".to_owned() {
            Topics::NodeList
        } else if name == "TaskList".to_owned() {
            Topics::TaskList
        } else if name == "TakeTask".to_owned() {
            Topics::TakeTask
        } else if name == "TaskResult".to_owned() {
            Topics::TaskResult
        } else if name == "NewBlock".to_owned() {
            Topics::NewBlock
        } else if name == "DataSync".to_owned() {
            Topics::DataSync
        } else if name == "Vote".to_owned() {
            Topics::Vote
        } else if name == "Election".to_owned() {
            Topics::Election
        } else if name == "KeepAlive".to_owned() {
            Topics::KeepAlive
        } else {
            Topics::Unknown(name)
        }
    }

    /// The name that the topic goes over the wire by.
    pub fn into(self) -> (name: String)
        ensures
            name@ == self.wire_name(),
    {
        match self {
            Topics::NodeStatus => "NodeStatus".to_owned(),
            Topics::NodeList => "NodeList".to_owned(),
            Topics::TaskList => "TaskList".to_owned(),
            Topics::TakeTask => "TakeTask".to_owned(),
            Topics::TaskResult => "TaskResult".to_owned(),
            Topics::NewBlock => "NewBlock".to_owned(),
            Topics::DataSync => "DataSync".to_owned(),
            Topics::Vote => "Vote".to_owned(),
            Topics::Election => "Election".to_owned(),
            Topics::KeepAlive => "KeepAlive".to_owned(),
            Topics::Unknown(name) => {
                let mut out = "Unknown(".to_owned();
                let quoted = debug_string(name.as_str());
                out.append(quoted.as_str());
                out.append(")");
                out
            },
        }
    }

    /// Whether two topics are the same topic.
    pub fn same(&self, other: &Topics) -> (eq: bool)
        ensures
            eq == (self@ == other@),
    {
        match (self, other) {
            (Topics::NodeStatus, Topics::NodeStatus) => true,
            (Topics::NodeList, Topics::NodeList) => true,
            (Topics::TaskList, Topics::TaskList) => true,
            (Topics::TakeTask, Topics::TakeTask) => true,
            (Topics::TaskResult, Topics::TaskResult) => true,
            (Topics::NewBlock, Topics::NewBlock) => true,
            (Topics::DataSync, Topics::DataSync) => true,
            (Topics::Vote, Topics::Vote) => true,
            (Topics::Election, Topics::Election) => true,
            (Topics::KeepAlive, Topics::KeepAlive) => true,
            (Topics::Unknown(a), Topics::Unknown(b)) => *a == *b,
            _ => false,
        }
    }

    /// A copy of the topic.
    pub fn duplicate(&self) -> (copy: Topics)
        ensures
            copy@ == self@,
    {
        match self {
            Topics::NodeStatus => Topics::NodeStatus,
            Topics::NodeList => Topics::NodeList,
            Topics::TaskList => Topics::TaskList,
            Topics::TakeTask => Topics::TakeTask,
            Topics::TaskResult => Topics::TaskResult,
            Topics::NewBlock => Topics::NewBlock,
            Topics::DataSync => Topics::DataSync,
            Topics::Vote => Topics::Vote,
            Topics::Election => Topics::Election,
            Topics::KeepAlive => Topics::KeepAlive,
            Topics::Unknown(name) => Topics::Unknown(name.clone()),
        }
    }
}

impl From<String> for Topics {
    fn from(name: String) -> (topic: Topics) {
        Topics::from_name(name)
    }
}

impl vstd::std_specs::convert::FromSpecImpl<String> for Topics {
    open spec fn obeys_from_spec() -> bool {
        true
    }

    open spec fn from_spec(name: String) -> Topics {
        Topics::read(name)
    }
}

/// The names of the closed set are ten different names.
pub proof fn lemma_known_names_differ(a: int, b: int)
    requires
        0 <= a < 10,
        0 <= b < 10,
        a != b,
    ensures
        known_name(a) != known_name(b),
{
    reveal_strlit("NodeStatus");
    reveal_strlit("NodeList");
    reveal_strlit("TaskList");
    reveal_strlit("TakeTask");
    reveal_strlit("TaskResult");
    reveal_strlit("NewBlock");
    reveal_strlit("DataSync");
    reveal_strlit("Vote");
    reveal_strlit("Election");
    reveal_strlit("KeepAlive");
    let x = known_name(a);
    let y = known_name(b);
    if x.len() == y.len() {
        assert(x[0] != y[0] || x[4] != y[4]);
    }
}

/// A topic of the closed set is read back from the name it is sent by.
pub proof fn lemma_topic_round_trip(topic: Topics)
    requires
        !(topic is Unknown),
    ensures
        Topics::of_name(topic.wire_name()) == topic@,
{
    let t = topic.tag();
    assert forall|b: int| 0 <= b < 10 && b != t implies known_name(t) != known_name(b) by {
        lemma_known_names_differ(t, b);
    }
}

/// The topic on which nodes synchronise data.
pub fn sync_topic() -> (topic: Topics)
    ensures
        topic == Topics::DataSync,
{
    Topics::DataSync
}

/// The topics that a verifier joins.
pub fn verifier_topics() -> (topics: Vec<Topics>)
    ensures
        topics@ == seq![
            Topics::TaskList,
            Topics::TakeTask,
            Topics::TaskResult,
            Topics::NewBlock,
            Topics::Vote,
            Topics::Election,
        ],
{
    let mut topics: Vec<Topics> = Vec::new();
    topics.push(Topics::TaskList);
    topics.push(Topics::TakeTask);
    topics.push(Topics::TaskResult);
    topics.push(Topics::NewBlock);
    topics.push(Topics::Vote);
    topics.push(Topics::Election);
    assert(topics@ =~= seq![
        Topics::TaskList,
        Topics::TakeTask,
        Topics::TaskResult,
        Topics::NewBlock,
        Topics::Vote,
        Topics::Election,
    ]);
    topics
}

/// The topics that a worker joins.
pub fn worker_topics() -> (topics: Vec<Topics>)
    ensures
        topics@ == seq![
            Topics::TaskList,
            Topics::TakeTask,
            Topics::NewBlock,
            Topics::Vote,
            Topics::NodeList,
        ],
{
    let mut topics: Vec<Topics> = Vec::new();
    topics.push(Topics::TaskList);
    topics.push(Topics::TakeTask);
    topics.push(Topics::NewBlock);
    topics.push(Topics::Vote);
    topics.push(Topics::NodeList);
    assert(topics@ =~= seq![
        Topics::TaskList,
        Topics::TakeTask,
        Topics::NewBlock,
        Topics::Vote,
        Topics::NodeList,
    ]);
    topics
}

} // verus!
