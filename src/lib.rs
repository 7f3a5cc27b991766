//! Event routing and actor orchestration for a blockchain node: a topic-based
//! publish/subscribe router with bounded queues, the lifecycle of the modules
//! it feeds, and the node's startup and shutdown sequence.

use vstd::prelude::*;

pub mod config;
pub mod event;
pub mod module;
pub mod node;
pub mod options;
pub mod router;

verus! {

} // verus!
