//! The settings of the node.

use crate::api::config::ApiConfig;
use crate::error::{ErrorCode, WError};
use crate::network::config::NetworkConfig;
use crate::node::config::NodeConfig;
use vstd::prelude::*;
use vstd::string::StrSliceExecFns;

verus! {

#[derive(Debug)]
pub struct Config {
    pub base: BaseConfig,
    pub network: NetworkConfig,
    pub node_config: NodeConfig,
    pub api_config: ApiConfig,
}

/// A failure to read the settings, with its text.
#[derive(Debug)]
pub struct ConfigError {
    pub message: String,
}

#[derive(Debug)]
pub struct BaseConfig {
    pub data_path: String,
}

impl Config {
    /// Checks that the settings name the principal of the node.
    pub fn check(&self) -> (res: Result<(), WError>)
        ensures
            self.node_config.principal_id@.len() > 0 ==> res is Ok,
            self.node_config.principal_id@.len() == 0 ==> res is Err && res.unwrap_err().code
                == ErrorCode::BindError && res.unwrap_err().message@
                == "Please set principal id of network config on config.toml"@,
    {
        if self.node_config.principal_id.as_str().unicode_len() == 0 {
            return Err(
                WError {
                    code: ErrorCode::BindError,
                    message: "Please set principal id of network config on config.toml".to_owned(),
                },
            );
        }
        Ok(())
    }
}

} // verus!
