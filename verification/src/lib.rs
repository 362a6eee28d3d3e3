//! A node of a peer-to-peer network for distributed computing.
//!
//! The nodes keep a chain of blocks that records who is in the network,
//! which tasks there are, and who runs which. This crate holds the logic of
//! a node:
//!
//! * [`database`]: the authenticated store: tries over the columns of a
//!   key-value backend, with the codec of their nodes;
//! * [`blockchain`]: the block engine: the block that is being filled, and
//!   its packing into the chain;
//! * [`node`] and [`task`]: the state machines of the nodes and of the
//!   tasks;
//! * [`message`] and [`network`]: the queues that the state machines talk
//!   through, and the router between them and the gossip overlay.
//!
//! The state machines do no input or output of their own. A state machine
//! takes a message, changes its state, and says what is to be done: an
//! answer to send, a message to publish, a request to make of another
//! state machine. What is encoded is handed to it as bytes.

pub mod api;
pub mod blockchain;
pub mod config;
pub mod database;
pub mod dir;
pub mod error;
pub mod ic;
pub mod keep_alive;
pub mod key_pair;
pub mod message;
pub mod network;
pub mod node;
pub mod task;
pub mod task_process;
