use vstd::prelude::*;

verus! {

/// The logical broadcast channels of a node.
#[derive(Clone, Copy, Debug, PartialEq, Eq, Structural)]
pub enum Topic {
    Control,
    State,
    Network,
    Consensus,
    Storage,
}

/// Lifecycle phase of a module, and of the node as a whole.
#[derive(Clone, Copy, Debug, PartialEq, Eq, Structural)]
pub enum RuntimeModuleState {
    Starting,
    Running,
    Stopped,
    Terminating,
}

/// A domain message carried through the router.
#[derive(Clone, Copy, Debug, PartialEq, Eq, Structural)]
pub enum Event {
    /// Coordinated shutdown request.
    Stop,
    NoOp,
    /// An opaque domain message identified by a number.
    Message(u64),
}

/// The router's unit of transport: an event and the topic it is published on.
pub type DirectedEvent = (Topic, Event);

} // verus!
