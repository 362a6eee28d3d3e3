//! The side of a task in the talk with the node.

use vstd::prelude::*;

verus! {

/// What a task can do.
pub trait TaskTemplate {
    fn check_env(&self);

    fn invoke(&self);

    /// `check_result` let verify node to check the result uploaded by work node.
    fn check_result(&self, data: Vec<u8>);
}

/// Who deals with the commands and answers that reach a task.
pub trait TaskCommandDealer<T: TaskTemplate> {
    fn deal_command_invoke(&self, task: &T, command_invoke: TaskCommandInvoke);

    fn deal_command_response(&self, task: &T, command_invoke: TaskCommanResult);
}

#[derive(Debug)]
pub struct TaskProcessMsg {
    pub msg_type: TaskProcessMsgType,
    pub data: Vec<u8>,
}

#[derive(Debug, Clone, Copy, PartialEq, Eq, Structural)]
pub enum TaskProcessMsgType {
    CommandInvoke,
    CommandResponse,
}

#[derive(Debug, Clone, Copy, PartialEq, Eq, Structural)]
pub enum TaskCommand {
    CheckEnv,
    Invoke,
    CheckResult,
    UploadData,
}

#[derive(Debug)]
pub struct TaskCommandInvoke {
    pub command: TaskCommand,
    pub data: Vec<u8>,
}

#[derive(Debug)]
pub struct TaskCommanResult {
    pub command: TaskCommand,
    pub code: String,
    pub msg: String,
    pub data: Vec<u8>,
}

/// The answer that `command` went well: code `200`, text `success`, no data.
pub open spec fn is_success_of(result: TaskCommanResult, command: TaskCommand) -> bool {
    &&& result.command == command
    &&& result.code@ == "200"@
    &&& result.msg@ == "success"@
    &&& result.data@.len() == 0
}

/// The answer of a task that its environment is well.
pub fn check_env_success() -> (result: TaskCommanResult)
    ensures
        is_success_of(result, TaskCommand::CheckEnv),
{
    TaskCommanResult {
        command: TaskCommand::CheckEnv,
        code: "200".to_owned(),
        msg: "success".to_owned(),
        data: Vec::new(),
    }
}

/// The answer of a task that it ran well.
pub fn invoke_success() -> (result: TaskCommanResult)
    ensures
        is_success_of(result, TaskCommand::Invoke),
{
    TaskCommanResult {
        command: TaskCommand::Invoke,
        code: "200".to_owned(),
        msg: "success".to_owned(),
        data: Vec::new(),
    }
}

/// The message that carries an encoded answer to the node.
pub fn child_process_send_msg(encoded: Vec<u8>) -> (msg: TaskProcessMsg)
    ensures
        msg.msg_type == TaskProcessMsgType::CommandResponse,
        msg.data == encoded,
{
    TaskProcessMsg { msg_type: TaskProcessMsgType::CommandResponse, data: encoded }
}

/// Which part of a task a command calls for.
#[derive(Debug, Clone, Copy, PartialEq, Eq, Structural)]
pub enum TaskCall {
    CheckEnv,
    Invoke,
    CheckResult,
    Nothing,
}

/// The part of a task that a command calls for.
pub open spec fn call_of(command: TaskCommand) -> TaskCall {
    match command {
        TaskCommand::CheckEnv => TaskCall::CheckEnv,
        TaskCommand::Invoke => TaskCall::Invoke,
        TaskCommand::CheckResult => TaskCall::CheckResult,
        TaskCommand::UploadData => TaskCall::Nothing,
    }
}

#[derive(Debug)]
pub struct DefaultTaskCommandDealer {}

impl DefaultTaskCommandDealer {
    pub fn new() -> DefaultTaskCommandDealer {
        DefaultTaskCommandDealer {  }
    }

    /// The part of a task that a command calls for.
    pub fn dispatch(command: TaskCommand) -> (call: TaskCall)
        ensures
            call == call_of(command),
    {
        match command {
            TaskCommand::CheckEnv => TaskCall::CheckEnv,
            TaskCommand::Invoke => TaskCall::Invoke,
            TaskCommand::CheckResult => TaskCall::CheckResult,
            TaskCommand::UploadData => TaskCall::Nothing,
        }
    }
}

impl<T: TaskTemplate> TaskCommandDealer<T> for DefaultTaskCommandDealer {
    fn deal_command_invoke(&self, task: &T, command_invoke: TaskCommandInvoke) {
        match DefaultTaskCommandDealer::dispatch(command_invoke.command) {
            TaskCall::CheckEnv => {
                task.check_env();
            },
            TaskCall::Invoke => task.invoke(),
            TaskCall::CheckResult => task.check_result(command_invoke.data),
            TaskCall::Nothing => {},
        }
    }

    fn deal_command_response(&self, task: &T, command_invoke: TaskCommanResult) {
    }
}

} // verus!
