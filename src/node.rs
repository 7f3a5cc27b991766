use vstd::prelude::*;

use crate::config::{same_config, KeyPair, NodeConfig, NodeType, SocketAddress, copy_vec};
use crate::event::{DirectedEvent, Event, RuntimeModuleState, Topic};
use crate::router::EventRouter;

verus! {

/// The modules the orchestrator joins on shutdown, in the order it joins them.
#[derive(Clone, Copy, Debug, PartialEq, Eq, Structural)]
pub enum ModuleSlot {
    State,
    Mining,
    Gossip,
    TxnValidator,
    JsonRpc,
    Http,
}

pub open spec fn slot_at(k: int) -> ModuleSlot {
    if k == 0 {
        ModuleSlot::State
    } else if k == 1 {
        ModuleSlot::Mining
    } else if k == 2 {
        ModuleSlot::Gossip
    } else if k == 3 {
        ModuleSlot::TxnValidator
    } else if k == 4 {
        ModuleSlot::JsonRpc
    } else {
        ModuleSlot::Http
    }
}

fn slot_of(k: usize) -> (r: ModuleSlot)
    ensures
        r == slot_at(k as int),
{
    if k == 0 {
        ModuleSlot::State
    } else if k == 1 {
        ModuleSlot::Mining
    } else if k == 2 {
        ModuleSlot::Gossip
    } else if k == 3 {
        ModuleSlot::TxnValidator
    } else if k == 4 {
        ModuleSlot::JsonRpc
    } else {
        ModuleSlot::Http
    }
}

/// Which modules the node runs; a disabled one has no task to join.
#[derive(Clone, Copy, Debug, PartialEq, Eq, Structural)]
pub struct EnabledModules {
    pub state: bool,
    pub mining: bool,
    pub gossip: bool,
    pub txn_validator: bool,
    pub jsonrpc: bool,
    pub http: bool,
}

impl EnabledModules {
    /// The slots in join order.
    pub open spec fn slots(self) -> Seq<bool> {
        seq![self.state, self.mining, self.gossip, self.txn_validator, self.jsonrpc, self.http]
    }
}

/// Why the node could not shut down cleanly.
#[derive(Clone, Copy, Debug, PartialEq, Eq, Structural)]
pub enum NodeError {
    /// The control channel closed before a stop request came.
    ControlChannelClosed,
    /// The stop event could not be handed to the router.
    StopNotDelivered,
    /// A module's task ended with an error.
    ModuleFailed(ModuleSlot),
    /// The router's task ended abnormally.
    RouterFailed,
}

/// Where the shutdown sequence stands.
#[derive(Clone, Copy, Debug, PartialEq, Eq, Structural)]
pub enum WaitStage {
    /// Started, `wait` not yet called.
    Ready,
    AwaitingSignal,
    PublishingStop,
    /// Joining the module in this slot.
    Joining(usize),
    ClosingEvents,
    JoiningRouter,
    Done,
}

/// What the shutdown sequence reports back to the orchestrator.
#[derive(Clone, Copy, Debug, PartialEq, Eq, Structural)]
pub enum WaitEvent {
    /// A stop request arrived on the control channel.
    SignalReceived,
    /// The control channel closed without a request.
    SignalLost,
    /// The `(Control, Stop)` event was sent (`true`) or could not be (`false`).
    StopSent(bool),
    /// The module being joined ended, successfully or not.
    ModuleExited(bool),
    /// The outbound event sender has been dropped.
    EventsClosed,
    /// The router task ended, normally or not.
    RouterExited(bool),
}

/// What the orchestrator has to do next.
#[derive(Clone, Copy, Debug, PartialEq, Eq, Structural)]
pub enum WaitAction {
    AwaitSignal,
    /// Send `Node::stop_event()` on the outbound sender.
    PublishStop,
    /// Await the task of this module.
    Join(ModuleSlot),
    /// Drop the outbound event sender, closing the router's inbound stream.
    CloseEvents,
    /// Await the router task.
    JoinRouter,
    /// The sequence is over; `Node::outcome` gives the result.
    Finish,
}

/// The first enabled slot at or after `from`, or 6 when there is none.
pub open spec fn next_enabled(slots: Seq<bool>, from: int) -> int
    decreases 6 - from,
{
    if from >= 6 {
        6
    } else if slots[from] {
        from
    } else {
        next_enabled(slots, from + 1)
    }
}

/// The shutdown sequence as a state: stage, first error seen, node status.
pub type WaitModel = (WaitStage, Option<NodeError>, RuntimeModuleState);

/// The action the sequence waits on in a stage.
pub open spec fn pending_action(stage: WaitStage) -> WaitAction {
    match stage {
        WaitStage::Ready => WaitAction::AwaitSignal,
        WaitStage::AwaitingSignal => WaitAction::AwaitSignal,
        WaitStage::PublishingStop => WaitAction::PublishStop,
        WaitStage::Joining(k) => WaitAction::Join(slot_at(k as int)),
        WaitStage::ClosingEvents => WaitAction::CloseEvents,
        WaitStage::JoiningRouter => WaitAction::JoinRouter,
        WaitStage::Done => WaitAction::Finish,
    }
}

/// Go on to join the first enabled slot at or after `from`, or close the
/// event stream when none is left.
pub open spec fn join_from(s: WaitModel, slots: Seq<bool>, from: int) -> (WaitModel, WaitAction) {
    let j = next_enabled(slots, from);
    if j < 6 {
        ((WaitStage::Joining(j as usize), s.1, s.2), WaitAction::Join(slot_at(j)))
    } else {
        ((WaitStage::ClosingEvents, s.1, s.2), WaitAction::CloseEvents)
    }
}

/// One transition of the shutdown sequence. An event the stage does not wait
/// for changes nothing and repeats the pending action.
pub open spec fn wait_step(s: WaitModel, slots: Seq<bool>, ev: WaitEvent) -> (WaitModel, WaitAction) {
    match (s.0, ev) {
        (WaitStage::AwaitingSignal, WaitEvent::SignalReceived) => (
            (WaitStage::PublishingStop, s.1, RuntimeModuleState::Terminating),
            WaitAction::PublishStop,
        ),
        (WaitStage::AwaitingSignal, WaitEvent::SignalLost) => (
            (WaitStage::Done, Some(NodeError::ControlChannelClosed), s.2),
            WaitAction::Finish,
        ),
        (WaitStage::PublishingStop, WaitEvent::StopSent(true)) => join_from(s, slots, 0),
        (WaitStage::PublishingStop, WaitEvent::StopSent(false)) => (
            (WaitStage::Done, Some(NodeError::StopNotDelivered), s.2),
            WaitAction::Finish,
        ),
        (WaitStage::Joining(k), WaitEvent::ModuleExited(ok)) => {
            let err = if s.1 is None && !ok {
                Some(NodeError::ModuleFailed(slot_at(k as int)))
            } else {
                s.1
            };
            join_from((s.0, err, s.2), slots, k + 1)
        },
        (WaitStage::ClosingEvents, WaitEvent::EventsClosed) => (
            (WaitStage::JoiningRouter, s.1, s.2),
            WaitAction::JoinRouter,
        ),
        (WaitStage::JoiningRouter, WaitEvent::RouterExited(ok)) => {
            let err = if s.1 is None && !ok {
                Some(NodeError::RouterFailed)
            } else {
                s.1
            };
            ((WaitStage::Done, err, RuntimeModuleState::Stopped), WaitAction::Finish)
        },
        _ => (s, pending_action(s.0)),
    }
}

/// `next_enabled` finds the first enabled slot at or after `from`: every slot
/// it skips is disabled.
pub proof fn lemma_next_enabled(slots: Seq<bool>, from: int)
    requires
        slots.len() == 6,
        0 <= from <= 6,
    ensures
        from <= next_enabled(slots, from) <= 6,
        next_enabled(slots, from) < 6 ==> slots[next_enabled(slots, from)],
        forall|i: int| from <= i < next_enabled(slots, from) ==> !slots[i],
    decreases 6 - from,
{
    if from < 6 && !slots[from] {
        lemma_next_enabled(slots, from + 1);
    }
}

/// With no module enabled, a stop request leads straight to publishing Stop,
/// closing the event stream and joining the router, after which the node is
/// stopped and the sequence ends without error.
pub proof fn lemma_wait_without_modules(slots: Seq<bool>)
    requires
        slots.len() == 6,
        forall|i: int| 0 <= i < 6 ==> !slots[i],
    ensures
        ({
            let s0: WaitModel = (WaitStage::AwaitingSignal, None, RuntimeModuleState::Running);
            let (s1, a1) = wait_step(s0, slots, WaitEvent::SignalReceived);
            let (s2, a2) = wait_step(s1, slots, WaitEvent::StopSent(true));
            let (s3, a3) = wait_step(s2, slots, WaitEvent::EventsClosed);
            let (s4, a4) = wait_step(s3, slots, WaitEvent::RouterExited(true));
            &&& a1 == WaitAction::PublishStop
            &&& s1.2 == RuntimeModuleState::Terminating
            &&& s3.2 == RuntimeModuleState::Terminating
            &&& a2 == WaitAction::CloseEvents
            &&& a3 == WaitAction::JoinRouter
            &&& a4 == WaitAction::Finish
            &&& s4 == (WaitStage::Done, None::<NodeError>, RuntimeModuleState::Stopped)
        }),
{
    lemma_next_enabled(slots, 0);
}

/// After Stop is published, the first module joined is the first enabled slot
/// in declared order; with none enabled the event stream is closed.
pub proof fn lemma_first_join(s: WaitModel, slots: Seq<bool>)
    requires
        slots.len() == 6,
        s.0 == WaitStage::PublishingStop,
    ensures
        ({
            let (t, a) = wait_step(s, slots, WaitEvent::StopSent(true));
            &&& t.2 == s.2
            &&& t.0 matches WaitStage::Joining(j) ==> j < 6 && slots[j as int] && a
                == WaitAction::Join(slot_at(j as int)) && forall|i: int| 0 <= i < j ==> !slots[i]
            &&& t.0 == WaitStage::ClosingEvents ==> forall|i: int| 0 <= i < 6 ==> !slots[i]
            &&& (t.0 is Joining || t.0 == WaitStage::ClosingEvents)
        }),
{
    lemma_next_enabled(slots, 0);
}

/// Modules are joined strictly in declared order: while a join is pending the
/// node is not reported stopped, the next module joined is the next enabled
/// slot after the current one, and the event stream is closed only once no
/// enabled slot is left after it.
pub proof fn lemma_joins_in_declared_order(s: WaitModel, slots: Seq<bool>, ev: WaitEvent)
    requires
        slots.len() == 6,
        s.0 matches WaitStage::Joining(k) && k < 6,
    ensures
        ({
            let k = s.0->Joining_0;
            let (t, a) = wait_step(s, slots, ev);
            &&& t.2 == s.2
            &&& t.0 matches WaitStage::Joining(j) ==> (t == s && a == WaitAction::Join(
                slot_at(k as int),
            )) || (k < j < 6 && slots[j as int] && a == WaitAction::Join(slot_at(j as int))
                && forall|i: int| k < i < j ==> !slots[i])
            &&& t.0 == WaitStage::ClosingEvents ==> forall|i: int| k < i < 6 ==> !slots[i]
            &&& (t.0 is Joining || t.0 == WaitStage::ClosingEvents)
        }),
{
    let k = s.0->Joining_0;
    lemma_next_enabled(slots, k + 1);
}

/// The node becomes stopped only when the router task has been joined.
pub proof fn lemma_stopped_only_after_router(s: WaitModel, slots: Seq<bool>, ev: WaitEvent)
    requires
        s.2 != RuntimeModuleState::Stopped,
        wait_step(s, slots, ev).0.2 == RuntimeModuleState::Stopped,
    ensures
        s.0 == WaitStage::JoiningRouter,
        ev is RouterExited,
{
}

/// The node's status changes only along its lifecycle: to `Terminating` when
/// the stop request arrives, and to `Stopped` when the router has been joined.
pub proof fn lemma_status_follows_lifecycle(s: WaitModel, slots: Seq<bool>, ev: WaitEvent)
    ensures
        ({
            let t = wait_step(s, slots, ev).0;
            ||| t.2 == s.2
            ||| s.0 == WaitStage::AwaitingSignal && ev == WaitEvent::SignalReceived && t.2
                == RuntimeModuleState::Terminating
            ||| s.0 == WaitStage::JoiningRouter && ev is RouterExited && t.2
                == RuntimeModuleState::Stopped
        }),
{
}

/// The router task is joined only after the event stream was closed.
pub proof fn lemma_router_joined_after_close(s: WaitModel, slots: Seq<bool>, ev: WaitEvent)
    requires
        s.0 != WaitStage::JoiningRouter,
        wait_step(s, slots, ev).0.0 == WaitStage::JoiningRouter,
    ensures
        s.0 == WaitStage::ClosingEvents,
        ev == WaitEvent::EventsClosed,
{
}

/// The joins due for the enabled slots at or after `from`, in declared order.
pub open spec fn joins_from(slots: Seq<bool>, from: int) -> Seq<WaitAction>
    decreases 6 - from,
{
    if from >= 6 {
        Seq::empty()
    } else if slots[from] {
        seq![WaitAction::Join(slot_at(from))] + joins_from(slots, from + 1)
    } else {
        joins_from(slots, from + 1)
    }
}

/// The states and actions of the shutdown sequence fed the events `evs` in turn.
pub open spec fn feed(s: WaitModel, slots: Seq<bool>, evs: Seq<WaitEvent>) -> (WaitModel, Seq<WaitAction>)
    decreases evs.len(),
{
    if evs.len() == 0 {
        (s, Seq::empty())
    } else {
        let (t, a) = wait_step(s, slots, evs[0]);
        let (u, rest) = feed(t, slots, evs.drop_first());
        (u, seq![a] + rest)
    }
}

/// `n` successful module exits.
pub open spec fn exits_ok(n: nat) -> Seq<WaitEvent> {
    Seq::new(n, |i: int| WaitEvent::ModuleExited(true))
}

proof fn lemma_joins_skip(slots: Seq<bool>, from: int)
    requires
        slots.len() == 6,
        0 <= from <= 6,
    ensures
        joins_from(slots, from) == joins_from(slots, next_enabled(slots, from)),
    decreases 6 - from,
{
    if from < 6 && !slots[from] {
        lemma_joins_skip(slots, from + 1);
    }
}

proof fn lemma_join_run(s: WaitModel, slots: Seq<bool>, from: int)
    requires
        slots.len() == 6,
        0 <= from <= 6,
    ensures
        ({
            let (t, a) = join_from(s, slots, from);
            let n = joins_from(slots, from).len();
            let (u, acts) = feed(t, slots, exits_ok(n));
            &&& seq![a] + acts == joins_from(slots, from).push(WaitAction::CloseEvents)
            &&& u == (WaitStage::ClosingEvents, s.1, s.2)
        }),
    decreases 6 - from,
{
    lemma_next_enabled(slots, from);
    lemma_joins_skip(slots, from);
    let j = next_enabled(slots, from);
    let (t, a) = join_from(s, slots, from);
    if j < 6 {
        lemma_joins_skip(slots, j + 1);
        lemma_join_run(t, slots, j + 1);
        let n = joins_from(slots, from).len();
        assert(joins_from(slots, from) == seq![WaitAction::Join(slot_at(j))] + joins_from(slots, j + 1));
        assert(exits_ok(n).drop_first() =~= exits_ok(joins_from(slots, j + 1).len()));
        let (t2, a2) = wait_step(t, slots, WaitEvent::ModuleExited(true));
        assert((t2, a2) == join_from(t, slots, j + 1));
        let (u, acts) = feed(t2, slots, exits_ok(joins_from(slots, j + 1).len()));
        assert(seq![a2] + acts == joins_from(slots, j + 1).push(WaitAction::CloseEvents));
        assert(seq![a] + (seq![a2] + acts) =~= joins_from(slots, from).push(WaitAction::CloseEvents));
    } else {
        assert(joins_from(slots, 6) =~= Seq::<WaitAction>::empty());
        assert(exits_ok(0) =~= Seq::<WaitEvent>::empty());
        assert(seq![a] + Seq::<WaitAction>::empty() =~= seq![WaitAction::CloseEvents]);
    }
}

/// Over any set of enabled slots, once Stop is published and every module
/// exits cleanly, the sequence joins exactly the enabled modules, one after the
/// other in declared order, then closes the event stream, joins the router and
/// ends stopped without error.
pub proof fn lemma_shutdown_joins_enabled_in_order(slots: Seq<bool>)
    requires
        slots.len() == 6,
    ensures
        ({
            let s0: WaitModel = (WaitStage::PublishingStop, None, RuntimeModuleState::Terminating);
            let n = joins_from(slots, 0).len();
            let evs = seq![WaitEvent::StopSent(true)] + exits_ok(n) + seq![
                WaitEvent::EventsClosed,
                WaitEvent::RouterExited(true),
            ];
            feed(s0, slots, evs) == (
                (WaitStage::Done, None::<NodeError>, RuntimeModuleState::Stopped),
                joins_from(slots, 0) + seq![
                    WaitAction::CloseEvents,
                    WaitAction::JoinRouter,
                    WaitAction::Finish,
                ],
            )
        }),
{
    let s0: WaitModel = (WaitStage::PublishingStop, None, RuntimeModuleState::Terminating);
    let n = joins_from(slots, 0).len();
    lemma_join_run(s0, slots, 0);
    let tail = seq![WaitEvent::EventsClosed, WaitEvent::RouterExited(true)];
    let evs = seq![WaitEvent::StopSent(true)] + exits_ok(n) + tail;
    lemma_feed_append(join_from(s0, slots, 0).0, slots, exits_ok(n), tail);
    assert(evs.drop_first() =~= exits_ok(n) + tail);
    let c: WaitModel = (WaitStage::ClosingEvents, None, RuntimeModuleState::Terminating);
    assert(tail.drop_first().drop_first() =~= Seq::<WaitEvent>::empty());
    assert(tail.drop_first() =~= seq![WaitEvent::RouterExited(true)]);
    let (t, a) = join_from(s0, slots, 0);
    let (u, acts) = feed(t, slots, exits_ok(n));
    assert(u == c);
    let (c1, x1) = wait_step(c, slots, WaitEvent::EventsClosed);
    let (c2, x2) = wait_step(c1, slots, WaitEvent::RouterExited(true));
    assert(feed(c2, slots, tail.drop_first().drop_first()) == (c2, Seq::<WaitAction>::empty()));
    assert(feed(c1, slots, tail.drop_first()).1 =~= seq![x2]);
    assert(feed(c, slots, tail).1 =~= seq![x1, x2]);
    assert(feed(c, slots, tail).0 == c2);
    let jr = seq![WaitAction::JoinRouter, WaitAction::Finish];
    assert(seq![a] + acts == joins_from(slots, 0).push(WaitAction::CloseEvents));
    assert(seq![a] + (acts + jr) =~= (seq![a] + acts) + jr);
    assert(joins_from(slots, 0).push(WaitAction::CloseEvents) + jr =~= joins_from(slots, 0) + seq![
        WaitAction::CloseEvents,
        WaitAction::JoinRouter,
        WaitAction::Finish,
    ]);
    assert(seq![a] + (acts + feed(c, slots, tail).1) =~= joins_from(slots, 0) + seq![
        WaitAction::CloseEvents,
        WaitAction::JoinRouter,
        WaitAction::Finish,
    ]);
}

proof fn lemma_feed_append(s: WaitModel, slots: Seq<bool>, a: Seq<WaitEvent>, b: Seq<WaitEvent>)
    ensures
        feed(s, slots, a + b) == (
            feed(feed(s, slots, a).0, slots, b).0,
            feed(s, slots, a).1 + feed(feed(s, slots, a).0, slots, b).1,
        ),
    decreases a.len(),
{
    if a.len() == 0 {
        assert(a + b =~= b);
        assert(Seq::<WaitAction>::empty() + feed(s, slots, b).1 =~= feed(s, slots, b).1);
    } else {
        let (t, x) = wait_step(s, slots, a[0]);
        assert((a + b).drop_first() =~= a.drop_first() + b);
        lemma_feed_append(t, slots, a.drop_first(), b);
        let (u, rest) = feed(t, slots, a.drop_first());
        assert(seq![x] + (rest + feed(u, slots, b).1) =~= (seq![x] + rest) + feed(u, slots, b).1);
    }
}

/// The receiving ends the bootstrapper hands to the modules.
#[derive(Clone, Copy, Debug, PartialEq, Eq, Structural)]
pub struct ModuleReceivers {
    pub mempool: usize,
    pub vrrbdb: usize,
    pub network: usize,
    pub controller: usize,
    pub validator: usize,
    pub miner: usize,
    pub jsonrpc: usize,
    pub http: usize,
}

/// A member of the network: its configuration, its lifecycle state and the
/// shutdown sequence over the modules it runs.
pub struct Node {
    config: NodeConfig,
    running_status: RuntimeModuleState,
    keypair: KeyPair,
    slots: Vec<bool>,
    stage: WaitStage,
    first_error: Option<NodeError>,
}

impl Node {
    pub closed spec fn node_config(&self) -> NodeConfig {
        self.config
    }

    pub closed spec fn node_keypair(&self) -> KeyPair {
        self.keypair
    }

    pub closed spec fn enabled_slots(&self) -> Seq<bool> {
        self.slots@
    }

    pub closed spec fn wait_state(&self) -> WaitModel {
        (self.stage, self.first_error, self.running_status)
    }

    pub closed spec fn wf(&self) -> bool {
        &&& self.slots@.len() == 6
        &&& self.stage matches WaitStage::Joining(k) ==> k < 6
    }

    /// The router every node runs: the five topics, with room for one pending
    /// event per subscriber on Control and State and a hundred on the others.
    pub fn setup_event_routing_system() -> (r: EventRouter)
        ensures
            r.wf(),
            !r.is_started(),
            r.subscriptions().len() == 0,
            r.capacity(Topic::Control) == Some(1usize),
            r.capacity(Topic::State) == Some(1usize),
            r.capacity(Topic::Network) == Some(100usize),
            r.capacity(Topic::Consensus) == Some(100usize),
            r.capacity(Topic::Storage) == Some(100usize),
    {
        let mut event_router = EventRouter::new();
        event_router.add_topic(Topic::Control, 1);
        event_router.add_topic(Topic::State, 1);
        event_router.add_topic(Topic::Network, 100);
        event_router.add_topic(Topic::Consensus, 100);
        event_router.add_topic(Topic::Storage, 100);
        event_router
    }

    /// Subscribes every module the node may run, before the router starts:
    /// mempool and state storage to Storage, gossip and its controller to
    /// Network, validator and miner to Consensus, the two servers to Control.
    pub fn subscribe_modules(router: &mut EventRouter) -> (r: ModuleReceivers)
        requires
            old(router).wf(),
            old(router).capacity(Topic::Control) is Some,
            old(router).capacity(Topic::Network) is Some,
            old(router).capacity(Topic::Consensus) is Some,
            old(router).capacity(Topic::Storage) is Some,
        ensures
            final(router).wf(),
            final(router).is_started() == old(router).is_started(),
            forall|t: Topic| final(router).capacity(t) == old(router).capacity(t),
            ({
                let n = old(router).subscriptions().len();
                &&& final(router).subscriptions() == old(router).subscriptions() + seq![
                    (Topic::Storage, Seq::empty()),
                    (Topic::Storage, Seq::empty()),
                    (Topic::Network, Seq::empty()),
                    (Topic::Network, Seq::empty()),
                    (Topic::Consensus, Seq::empty()),
                    (Topic::Consensus, Seq::empty()),
                    (Topic::Control, Seq::empty()),
                    (Topic::Control, Seq::empty()),
                ]
                &&& r == (ModuleReceivers {
                    mempool: n as usize,
                    vrrbdb: (n + 1) as usize,
                    network: (n + 2) as usize,
                    controller: (n + 3) as usize,
                    validator: (n + 4) as usize,
                    miner: (n + 5) as usize,
                    jsonrpc: (n + 6) as usize,
                    http: (n + 7) as usize,
                })
            }),
    {
        let ghost s0 = router.subscriptions();
        let mempool = Self::subscribe_declared(router, Topic::Storage);
        let vrrbdb = Self::subscribe_declared(router, Topic::Storage);
        let network = Self::subscribe_declared(router, Topic::Network);
        let controller = Self::subscribe_declared(router, Topic::Network);
        let validator = Self::subscribe_declared(router, Topic::Consensus);
        let miner = Self::subscribe_declared(router, Topic::Consensus);
        let jsonrpc = Self::subscribe_declared(router, Topic::Control);
        let http = Self::subscribe_declared(router, Topic::Control);
        assert(router.subscriptions() =~= s0 + seq![
            (Topic::Storage, Seq::empty()),
            (Topic::Storage, Seq::empty()),
            (Topic::Network, Seq::empty()),
            (Topic::Network, Seq::empty()),
            (Topic::Consensus, Seq::empty()),
            (Topic::Consensus, Seq::empty()),
            (Topic::Control, Seq::empty()),
            (Topic::Control, Seq::empty()),
        ]);
        ModuleReceivers { mempool, vrrbdb, network, controller, validator, miner, jsonrpc, http }
    }

    /// The node once its modules are bootstrapped and the router is running, in
    /// the `Running` state:
    /// `config` is the configuration as the bootstrapper amended it (resolved
    /// addresses), `enabled` says which module slots hold a task.
    pub fn start(config: NodeConfig, enabled: EnabledModules) -> (r: Self)
        ensures
            r.wf(),
            same_config(r.node_config(), config),
            r.node_keypair().secret_key@ == config.keypair.secret_key@,
            r.node_keypair().public_key@ == config.keypair.public_key@,
            r.enabled_slots() == enabled.slots(),
            r.wait_state() == (WaitStage::Ready, None::<NodeError>, RuntimeModuleState::Running),
    {
        let keypair = config.keypair.copy();
        let slots = vec![
            enabled.state,
            enabled.mining,
            enabled.gossip,
            enabled.txn_validator,
            enabled.jsonrpc,
            enabled.http,
        ];
        assert(slots@ =~= enabled.slots());
        Node {
            config,
            running_status: RuntimeModuleState::Running,
            keypair,
            slots,
            stage: WaitStage::Ready,
            first_error: None,
        }
    }

    /// Begins the run-until-signal sequence: the node waits for a stop request. Called again later, it changes nothing and repeats the
    /// pending action.
    pub fn wait(&mut self) -> (r: WaitAction)
        requires
            old(self).wf(),
        ensures
            final(self).wf(),
            same_config(final(self).node_config(), old(self).node_config()),
            final(self).enabled_slots() == old(self).enabled_slots(),
            old(self).wait_state().0 == WaitStage::Ready ==> final(self).wait_state() == (
                WaitStage::AwaitingSignal,
                old(self).wait_state().1,
                old(self).wait_state().2,
            ) && r == WaitAction::AwaitSignal,
            old(self).wait_state().0 != WaitStage::Ready ==> final(self).wait_state()
                == old(self).wait_state() && r == pending_action(old(self).wait_state().0),
    {
        match self.stage {
            WaitStage::Ready => {
                self.stage = WaitStage::AwaitingSignal;
                WaitAction::AwaitSignal
            },
            _ => self.pending(),
        }
    }

    fn pending(&self) -> (r: WaitAction)
        requires
            self.wf(),
        ensures
            r == pending_action(self.stage),
    {
        match self.stage {
            WaitStage::Ready => WaitAction::AwaitSignal,
            WaitStage::AwaitingSignal => WaitAction::AwaitSignal,
            WaitStage::PublishingStop => WaitAction::PublishStop,
            WaitStage::Joining(k) => WaitAction::Join(slot_of(k)),
            WaitStage::ClosingEvents => WaitAction::CloseEvents,
            WaitStage::JoiningRouter => WaitAction::JoinRouter,
            WaitStage::Done => WaitAction::Finish,
        }
    }

    /// Moves on to the first enabled slot at or after `from`.
    fn join_from(&mut self, from: usize) -> (r: WaitAction)
        requires
            old(self).wf(),
            from <= 6,
        ensures
            final(self).wf(),
            final(self).config == old(self).config,
            final(self).keypair == old(self).keypair,
            final(self).slots == old(self).slots,
            (final(self).wait_state(), r) == join_from(old(self).wait_state(), old(self).slots@, from as int),
    {
        let ghost s0 = *self;
        let mut j = from;
        while j < 6
            invariant
                *self == s0,
                s0 == *old(self),
                self.wf(),
                from <= j <= 6,
                next_enabled(self.slots@, from as int) == next_enabled(self.slots@, j as int),
            decreases 6 - j,
        {
            if self.slots[j] {
                self.stage = WaitStage::Joining(j);
                return WaitAction::Join(slot_of(j));
            }
            j = j + 1;
        }
        self.stage = WaitStage::ClosingEvents;
        WaitAction::CloseEvents
    }

    /// One step of the shutdown sequence: takes what the orchestrator observed
    /// and returns what it has to do next. Modules are joined one at a time in
    /// slot order, skipping disabled slots; a failed module does not stop the
    /// joins after it, and the first error is the one reported.
    pub fn on_event(&mut self, ev: WaitEvent) -> (r: WaitAction)
        requires
            old(self).wf(),
        ensures
            final(self).wf(),
            same_config(final(self).node_config(), old(self).node_config()),
            final(self).enabled_slots() == old(self).enabled_slots(),
            (final(self).wait_state(), r) == wait_step(old(self).wait_state(), old(self).enabled_slots(), ev),
    {
        match (self.stage, ev) {
            (WaitStage::AwaitingSignal, WaitEvent::SignalReceived) => {
                self.stage = WaitStage::PublishingStop;
                self.running_status = RuntimeModuleState::Terminating;
                WaitAction::PublishStop
            },
            (WaitStage::AwaitingSignal, WaitEvent::SignalLost) => {
                self.stage = WaitStage::Done;
                self.first_error = Some(NodeError::ControlChannelClosed);
                WaitAction::Finish
            },
            (WaitStage::PublishingStop, WaitEvent::StopSent(true)) => self.join_from(0),
            (WaitStage::PublishingStop, WaitEvent::StopSent(false)) => {
                self.stage = WaitStage::Done;
                self.first_error = Some(NodeError::StopNotDelivered);
                WaitAction::Finish
            },
            (WaitStage::Joining(k), WaitEvent::ModuleExited(ok)) => {
                if self.first_error.is_none() && !ok {
                    self.first_error = Some(NodeError::ModuleFailed(slot_of(k)));
                }
                self.join_from(k + 1)
            },
            (WaitStage::ClosingEvents, WaitEvent::EventsClosed) => {
                self.stage = WaitStage::JoiningRouter;
                WaitAction::JoinRouter
            },
            (WaitStage::JoiningRouter, WaitEvent::RouterExited(ok)) => {
                if self.first_error.is_none() && !ok {
                    self.first_error = Some(NodeError::RouterFailed);
                }
                self.stage = WaitStage::Done;
                self.running_status = RuntimeModuleState::Stopped;
                WaitAction::Finish
            },
            _ => self.pending(),
        }
    }

    /// The event published when the node shuts down: `Stop` on the Control topic.
    pub fn stop_event() -> (r: DirectedEvent)
        ensures
            r == (Topic::Control, Event::Stop),
    {
        (Topic::Control, Event::Stop)
    }

    /// The result of the shutdown sequence so far: the first error it met.
    pub fn outcome(&self) -> (r: Result<(), NodeError>)
        ensures
            self.wait_state().1 is None ==> r is Ok,
            self.wait_state().1 matches Some(e) ==> r == Err::<(), NodeError>(e),
    {
        match self.first_error {
            None => Ok(()),
            Some(e) => Err(e),
        }
    }

    pub fn config(&self) -> (r: NodeConfig)
        ensures
            same_config(r, self.node_config()),
    {
        self.config.copy()
    }

    /// The node's id.
    pub fn id(&self) -> (r: String)
        ensures
            r@ == self.node_config().id@,
    {
        self.config.id.clone()
    }

    /// The node's index.
    pub fn node_idx(&self) -> (r: u16)
        ensures
            r == self.node_config().idx,
    {
        self.config.idx
    }

    /// The node's index; `node_idx` is the preferred name.
    pub fn get_node_idx(&self) -> (r: u16)
        ensures
            r == self.node_config().idx,
    {
        self.node_idx()
    }

    /// The node's type.
    pub fn node_type(&self) -> (r: NodeType)
        ensures
            r == self.node_config().node_type,
    {
        self.config.node_type
    }

    /// The node's type; `node_type` is the preferred name.
    pub fn get_node_type(&self) -> (r: NodeType)
        ensures
            r == self.node_config().node_type,
    {
        self.node_type()
    }

    pub fn is_bootsrap(&self) -> (r: bool)
        ensures
            r == (self.node_config().node_type == NodeType::Bootstrap),
    {
        match self.node_type() {
            NodeType::Bootstrap => true,
            _ => false,
        }
    }

    pub fn status(&self) -> (r: RuntimeModuleState)
        ensures
            r == self.wait_state().2,
    {
        self.running_status
    }

    pub fn keypair(&self) -> (r: KeyPair)
        ensures
            r.secret_key@ == self.node_keypair().secret_key@,
            r.public_key@ == self.node_keypair().public_key@,
    {
        self.keypair.copy()
    }

    pub fn udp_gossip_address(&self) -> (r: SocketAddress)
        ensures
            r == self.node_config().udp_gossip_address,
    {
        self.config.udp_gossip_address
    }

    pub fn raprtorq_gossip_address(&self) -> (r: SocketAddress)
        ensures
            r == self.node_config().raptorq_gossip_address,
    {
        self.config.raptorq_gossip_address
    }

    pub fn bootstrap_node_addresses(&self) -> (r: Vec<SocketAddress>)
        ensures
            r@ == self.node_config().bootstrap_node_addresses@,
    {
        copy_vec(&self.config.bootstrap_node_addresses)
    }

    pub fn jsonrpc_server_address(&self) -> (r: SocketAddress)
        ensures
            r == self.node_config().jsonrpc_server_address,
    {
        self.config.jsonrpc_server_address
    }

    fn subscribe_declared(router: &mut EventRouter, topic: Topic) -> (r: usize)
        requires
            old(router).wf(),
            old(router).capacity(topic) is Some,
        ensures
            final(router).wf(),
            final(router).is_started() == old(router).is_started(),
            forall|t: Topic| final(router).capacity(t) == old(router).capacity(t),
            r == old(router).subscriptions().len(),
            final(router).subscriptions() == old(router).subscriptions().push(
                (topic, Seq::empty()),
            ),
    {
        match router.subscribe(topic) {
            Ok(id) => id,
            Err(_) => 0,
        }
    }
}

} // verus!
