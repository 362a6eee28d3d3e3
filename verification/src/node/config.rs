//! Who the node is.

use vstd::prelude::*;

verus! {

/// The principal that the node acts for.
#[derive(Debug, Clone)]
pub struct NodeConfig {
    pub principal_id: String,
}

} // verus!
