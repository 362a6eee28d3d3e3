//! What the admin interface answers.
//!
//! Every answer has a code, `200` for success and `201` for failure, and a
//! text. The interface asks the node state machine and answers by what
//! came back.

use self::config::ApiConfig;
use crate::message::{Caller, LocalMessage, Message, MessageError};
use vstd::prelude::*;

pub mod config;
pub mod error;

verus! {

#[derive(Clone)]
pub struct ApiModule {
    caller: Caller,
    conf: ApiConfig,
}

/// An answer of the admin interface.
#[derive(Debug)]
pub struct ApiResponse<T> {
    pub code: String,
    pub msg: String,
    pub data: Option<T>,
}

impl ApiModule {
    /// The caller of the node state machine.
    pub closed spec fn target(&self) -> Caller {
        self.caller
    }

    /// Where the interface listens.
    pub closed spec fn settings(&self) -> ApiConfig {
        self.conf
    }

    pub fn new(caller: Caller, conf: ApiConfig) -> (api: ApiModule)
        ensures
            api.target() == caller,
            api.settings() == conf,
    {
        ApiModule { caller, conf }
    }

    /// The caller of the node state machine.
    pub fn caller(&self) -> (caller: Caller)
        ensures
            caller == self.target(),
    {
        self.caller
    }

    /// Where the interface listens.
    pub fn config(&self) -> (conf: &ApiConfig)
        ensures
            *conf == self.settings(),
    {
        &self.conf
    }

    /// The request that `keeper/init` sends to the node state machine.
    pub fn keeper_init_request() -> (msg: Message)
        ensures
            msg matches Message::LocalMessage(LocalMessage::ReqKeeperInit()),
    {
        Message::LocalMessage(LocalMessage::ReqKeeperInit())
    }

    /// The request that `worker/active` sends to the node state machine.
    pub fn worker_active_request() -> (msg: Message)
        ensures
            msg matches Message::LocalMessage(LocalMessage::ReqWorkerActive()),
    {
        Message::LocalMessage(LocalMessage::ReqWorkerActive())
    }

    /// Whether the node state machine answered `keeper/init` with success.
    pub open spec fn keeper_inited(result: Result<Option<Message>, MessageError>) -> bool {
        result matches Ok(Some(Message::LocalMessage(LocalMessage::AckKeeperInit(true))))
    }

    /// The answer to `keeper/init`: success where the node state machine
    /// acknowledged with `true`, failure in every other case.
    pub fn keeper_init(result: Result<Option<Message>, MessageError>) -> (response: ApiResponse<()>)
        ensures
            response.data is None,
            Self::keeper_inited(result) ==> response.is_success(),
            !Self::keeper_inited(result) ==> response.is_failure(),
    {
        match result {
            Ok(Some(Message::LocalMessage(LocalMessage::AckKeeperInit(true)))) => {
                ApiResponse::success()
            },
            _ => ApiResponse::error_default(),
        }
    }

    /// Whether the node state machine answered `worker/active` with success.
    pub open spec fn worker_activated(result: Result<Option<Message>, MessageError>) -> bool {
        result matches Ok(Some(Message::LocalMessage(LocalMessage::AckWorkerActive(true))))
    }

    /// The answer to `worker/active`: success where the node state machine
    /// acknowledged with `true`, failure in every other case.
    pub fn worker_active(result: Result<Option<Message>, MessageError>) -> (response: ApiResponse<
        (),
    >)
        ensures
            response.data is None,
            Self::worker_activated(result) ==> response.is_success(),
            !Self::worker_activated(result) ==> response.is_failure(),
    {
        match result {
            Ok(Some(Message::LocalMessage(LocalMessage::AckWorkerActive(true)))) => {
                ApiResponse::success()
            },
            _ => ApiResponse::error_default(),
        }
    }

    /// The answer to `keeper/node_list`.
    pub fn get_keeper_node_list() -> (response: ApiResponse<()>)
        ensures
            response.is_success(),
            response.data is None,
    {
        ApiResponse::success()
    }
}

impl<T> ApiResponse<T> {
    /// Code `200`, text `success`.
    pub open spec fn is_success(&self) -> bool {
        self.code@ == "200"@ && self.msg@ == "success"@
    }

    /// Code `201`, text `fail`.
    pub open spec fn is_failure(&self) -> bool {
        self.code@ == "201"@ && self.msg@ == "fail"@
    }
}

impl ApiResponse<()> {
    pub fn success() -> (response: Self)
        ensures
            response.is_success(),
            response.data is None,
    {
        ApiResponse { code: "200".to_owned(), msg: "success".to_owned(), data: None }
    }

    pub fn error_default() -> (response: Self)
        ensures
            response.is_failure(),
            response.data is None,
    {
        ApiResponse { code: "201".to_owned(), msg: "fail".to_owned(), data: None }
    }

    pub fn error(code: String, msg: String) -> (response: Self)
        ensures
            response.code == code,
            response.msg == msg,
            response.data is None,
    {
        ApiResponse { code, msg, data: None }
    }
}

} // verus!
