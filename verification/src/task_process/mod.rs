//! The side of the node in the talk with the process of a task.
//!
//! The node asks the process to check its environment; where the process
//! answers with code `200`, the node asks it to run. What the process
//! asks to upload goes out on the topic of the task results.

use self::task_process::{
    TaskCommanResult, TaskCommand, TaskCommandInvoke, TaskProcessMsg, TaskProcessMsgType,
};
use crate::database::data_types::TaskData;
use crate::message::Caller;
use crate::network::topics::{SubTopics, TopicMessage, Topics};
use crate::node::Publication;
use vstd::prelude::*;

pub mod task_process;

verus! {

/// Lines of the process that the node reads before it lets go.
pub const WATCHED_LINES: u32 = 11;

#[derive(Debug)]
pub struct TaskProcessServer {
    pub env_status: u8,
    pub node_caller: Caller,
    pub task: Option<TaskData>,
}

impl TaskProcessServer {
    pub fn new(task: TaskData, node_caller: Caller) -> (server: TaskProcessServer)
        ensures
            server.env_status == 0,
            server.node_caller == node_caller,
            server.task == Some(task),
    {
        TaskProcessServer { env_status: 0, node_caller, task: Some(task) }
    }

    /// The command that the talk starts with: check the environment.
    pub fn start(&self) -> (command: Option<TaskCommandInvoke>)
        ensures
            self.task is None ==> command is None,
            self.task is Some ==> {
                &&& command matches Some(c)
                &&& c.command == TaskCommand::CheckEnv
                &&& c.data@.len() == 0
            },
    {
        if self.task.is_none() {
            return None;
        }
        Some(TaskCommandInvoke { command: TaskCommand::CheckEnv, data: Vec::new() })
    }

    /// What goes out for a command of the process: for `UploadData`, given
    /// the encoded data, an upload on the topic of the task results; for
    /// any other command nothing.
    pub fn deal_command_invoke(&self, command: TaskCommand, encoded: Vec<u8>) -> (res: Option<
        Publication,
    >)
        ensures
            command == TaskCommand::UploadData ==> {
                &&& res matches Some(p)
                &&& p.peer_id is None
                &&& p.topic == Topics::TaskResult
                &&& p.message.sub_topic == SubTopics::UploadTaskData
                &&& p.message.data == encoded
            },
            command != TaskCommand::UploadData ==> res is None,
    {
        match command {
            TaskCommand::UploadData => Some(
                Publication {
                    peer_id: None,
                    topic: Topics::TaskResult,
                    message: TopicMessage { sub_topic: SubTopics::UploadTaskData, data: encoded },
                },
            ),
            _ => None,
        }
    }

    /// Whether a process said that all is well.
    pub open spec fn succeeded(result: &TaskCommanResult) -> bool {
        result.code@ == "200"@
    }

    /// The command to send after an answer of the process: run, after the
    /// environment was found well; else none.
    pub fn deal_command_response(&self, command_result: &TaskCommanResult) -> (next: Option<
        TaskCommandInvoke,
    >)
        ensures
            command_result.command == TaskCommand::CheckEnv && Self::succeeded(command_result)
                ==> {
                &&& next matches Some(c)
                &&& c.command == TaskCommand::Invoke
                &&& c.data@.len() == 0
            },
            !(command_result.command == TaskCommand::CheckEnv && Self::succeeded(command_result))
                ==> next is None,
    {
        match command_result.command {
            TaskCommand::CheckEnv => {
                if command_result.code == "200".to_owned() {
                    Some(TaskCommandInvoke { command: TaskCommand::Invoke, data: Vec::new() })
                } else {
                    None
                }
            },
            _ => None,
        }
    }

    /// The message that carries an encoded command to the process.
    pub fn send_command(encoded: Vec<u8>) -> (msg: TaskProcessMsg)
        ensures
            msg.msg_type == TaskProcessMsgType::CommandInvoke,
            msg.data == encoded,
    {
        TaskProcessMsg { msg_type: TaskProcessMsgType::CommandInvoke, data: encoded }
    }
}

} // verus!
