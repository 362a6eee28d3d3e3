//! Where the admin interface listens.

use vstd::prelude::*;

verus! {

#[derive(Debug, Clone)]
pub struct ApiConfig {
    pub host: String,
    pub port: u16,
}

} // verus!
