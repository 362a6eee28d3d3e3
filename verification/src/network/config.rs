//! How the node joins the overlay.

use vstd::prelude::*;

verus! {

/// The port to listen on and the addresses of the nodes to dial.
#[derive(Debug, Clone)]
pub struct NetworkConfig {
    pub port: u32,
    pub known_nodes: Vec<String>,
}

} // verus!
