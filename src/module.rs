use vstd::prelude::*;

use crate::config::SocketAddress;
use crate::event::{Event, RuntimeModuleState};
use crate::router::EventRouter;

verus! {

/// Number of events a module's run loop takes from a queue: up to and including
/// the first `Stop`, or all of them when there is none.
pub open spec fn taken_until_stop(q: Seq<Event>) -> nat
    decreases q.len(),
{
    if q.len() == 0 {
        0
    } else if q[0] == Event::Stop {
        1
    } else {
        1 + taken_until_stop(q.drop_first())
    }
}

/// The state a module reports after handling `e`: `Stop` ends it, anything else
/// keeps it running.
pub open spec fn state_after(e: Event) -> RuntimeModuleState {
    if e == Event::Stop {
        RuntimeModuleState::Terminating
    } else {
        RuntimeModuleState::Running
    }
}

/// When the first `Stop` of a queue stands at index `k`, the run loop takes
/// exactly the events up to it and leaves every later one unprocessed.
pub proof fn lemma_stop_ends_run(q: Seq<Event>, k: int)
    requires
        0 <= k < q.len(),
        q[k] == Event::Stop,
        forall|j: int| 0 <= j < k ==> q[j] != Event::Stop,
    ensures
        taken_until_stop(q) == k + 1,
    decreases k,
{
    if k > 0 {
        lemma_stop_ends_run(q.drop_first(), k - 1);
    }
}

/// The interface the orchestrator uses to manage any module alike.
pub trait RuntimeModule {
    /// The module's current lifecycle state.
    spec fn module_state(&self) -> RuntimeModuleState;

    fn name(&self) -> String;

    fn status(&self) -> (r: RuntimeModuleState)
        ensures
            r == self.module_state(),
    ;
}

/// Relies on uuid's `Uuid::new_v4` and its `Display`: a random identifier in
/// the 36-character hyphenated form.
#[verifier::external_body]
fn new_actor_id() -> (r: String)
    ensures
        r@.len() == 36,
{
    uuid::Uuid::new_v4().to_string()
}

/// The gossip/broadcast module: bridges Control and Network events to the
/// node's gossip engine, bound to a local socket.
pub struct BroadcastModule {
    id: String,
    addr: SocketAddress,
    status: RuntimeModuleState,
}

impl BroadcastModule {
    pub closed spec fn state(&self) -> RuntimeModuleState {
        self.status
    }

    pub closed spec fn address(&self) -> SocketAddress {
        self.addr
    }

    pub closed spec fn identity(&self) -> Seq<char> {
        self.id@
    }

    /// A module whose engine is bound at `local_addr`, the address the socket
    /// resolved to; it starts out stopped, under a fresh random id.
    pub fn new(local_addr: SocketAddress) -> (r: Self)
        ensures
            r.state() == RuntimeModuleState::Stopped,
            r.address() == local_addr,
            r.identity().len() == 36,
    {
        BroadcastModule { id: new_actor_id(), addr: local_addr, status: RuntimeModuleState::Stopped }
    }

    pub fn local_addr(&self) -> (r: SocketAddress)
        ensures
            r == self.address(),
    {
        self.addr
    }

    pub fn name(&self) -> (r: String)
        ensures
            r@ == "BroadcastModule"@,
    {
        "BroadcastModule".to_string()
    }

    pub fn id(&self) -> (r: String)
        ensures
            r@ == self.identity(),
    {
        self.id.clone()
    }

    pub fn label(&self) -> (r: String)
        ensures
            r@ == "BroadcastModule"@,
    {
        self.name()
    }

    pub fn status(&self) -> (r: RuntimeModuleState)
        ensures
            r == self.state(),
    {
        self.status
    }

    pub fn set_status(&mut self, actor_status: RuntimeModuleState)
        ensures
            final(self).state() == actor_status,
            final(self).address() == old(self).address(),
            final(self).identity() == old(self).identity(),
    {
        self.status = actor_status;
    }

    /// Handles one event and returns the state the module is in afterwards;
    /// the stored state is left to the run loop.
    pub fn handle(&mut self, event: Event) -> (r: RuntimeModuleState)
        ensures
            r == state_after(event),
            *final(self) == *old(self),
    {
        if event == Event::Stop {
            return RuntimeModuleState::Terminating;
        }
        RuntimeModuleState::Running
    }

    /// The run loop over the events queued for subscriber `sub`: takes them one
    /// at a time, handles each and stores the resulting state, and stops after
    /// the first `Stop`. Returns whether it stopped; otherwise the queue is empty
    /// and the loop would wait for more.
    pub fn run(&mut self, router: &mut EventRouter, sub: usize) -> (stopped: bool)
        requires
            old(router).wf(),
            sub < old(router).subscriptions().len(),
        ensures
            final(router).wf(),
            final(router).is_started() == old(router).is_started(),
            forall|t| final(router).capacity(t) == old(router).capacity(t),
            ({
                let q = old(router).subscriptions()[sub as int].1;
                &&& stopped == q.contains(Event::Stop)
                &&& final(router).subscriptions() == old(router).subscriptions().update(
                    sub as int,
                    (old(router).subscriptions()[sub as int].0, q.skip(taken_until_stop(q) as int)),
                )
                &&& stopped ==> final(self).state() == RuntimeModuleState::Terminating
                &&& !stopped && q.len() > 0 ==> final(self).state() == RuntimeModuleState::Running
                &&& q.len() == 0 ==> final(self).state() == old(self).state()
            }),
            final(self).address() == old(self).address(),
            final(self).identity() == old(self).identity(),
    {
        let ghost r0 = *router;
        let ghost s0 = *self;
        let ghost subs0 = router.subscriptions();
        let ghost topic = subs0[sub as int].0;
        let ghost q0 = subs0[sub as int].1;
        loop
            invariant
                router.wf(),
                router.is_started() == r0.is_started(),
                forall|t| router.capacity(t) == r0.capacity(t),
                subs0 == r0.subscriptions(),
                r0 == *old(router),
                q0 == subs0[sub as int].1,
                topic == subs0[sub as int].0,
                s0 == *old(self),
                sub < subs0.len(),
                router.subscriptions().len() == subs0.len(),
                ({
                    let rest = router.subscriptions()[sub as int].1;
                    let done = q0.len() - rest.len();
                    &&& 0 <= done <= q0.len()
                    &&& rest == q0.skip(done)
                    &&& router.subscriptions() == subs0.update(sub as int, (topic, rest))
                    &&& taken_until_stop(q0) == done + taken_until_stop(rest)
                    &&& forall|j: int| 0 <= j < done ==> q0[j] != Event::Stop
                    &&& done > 0 ==> self.state() == RuntimeModuleState::Running
                    &&& done == 0 ==> self.state() == s0.state()
                }),
                self.address() == s0.address(),
                self.identity() == s0.identity(),
            decreases router.subscriptions()[sub as int].1.len(),
        {
            let ghost rest = router.subscriptions()[sub as int].1;
            let ghost done = q0.len() - rest.len();
            match router.receive(sub) {
                None => {
                    proof {
                        assert(rest.len() == 0);
                        assert(!q0.contains(Event::Stop)) by {
                            if q0.contains(Event::Stop) {
                                let j = choose|j: int| 0 <= j < q0.len() && q0[j] == Event::Stop;
                                assert(j < done);
                            }
                        }
                        assert(q0.skip(taken_until_stop(q0) as int) =~= rest);
                    }
                    return false;
                },
                Some(e) => {
                    proof {
                        assert(e == q0[done]);
                        assert(rest.drop_first() =~= q0.skip(done + 1));
                    }
                    let st = self.handle(e);
                    self.set_status(st);
                    if st == RuntimeModuleState::Terminating {
                        proof {
                            assert(q0.contains(Event::Stop)) by {
                                assert(q0[done] == Event::Stop);
                            }
                            assert(taken_until_stop(rest) == 1);
                        }
                        return true;
                    }
                }
            }
        }
    }
}

impl RuntimeModule for BroadcastModule {
    open spec fn module_state(&self) -> RuntimeModuleState {
        self.state()
    }

    fn name(&self) -> String {
        BroadcastModule::name(self)
    }

    fn status(&self) -> (r: RuntimeModuleState) {
        self.status
    }
}

} // verus!
