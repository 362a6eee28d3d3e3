pub mod canister;
pub mod error;
