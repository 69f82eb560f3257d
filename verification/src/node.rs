//! Node-level state.
//!
//! The node's event loop, networking and storage run outside the core;
//! the lifecycle states it moves through are shared vocabulary.

use vstd::prelude::*;

verus! {

/// Node state.
#[derive(Clone, Debug, PartialEq)]
pub enum NodeState {
    /// Node is initializing.
    Initializing,
    /// Node is syncing with the network.
    Syncing,
    /// Node is fully synced and operational.
    Running,
    /// Node is shutting down.
    ShuttingDown,
}

} // verus!
