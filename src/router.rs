use vstd::prelude::*;

use crate::event::{DirectedEvent, Event, Topic};

verus! {

/// Position of a topic in the router's capacity table.
pub open spec fn topic_index(t: Topic) -> int {
    match t {
        Topic::Control => 0,
        Topic::State => 1,
        Topic::Network => 2,
        Topic::Consensus => 3,
        Topic::Storage => 4,
    }
}

fn topic_slot(t: Topic) -> (r: usize)
    ensures
        r as int == topic_index(t),
{
    match t {
        Topic::Control => 0,
        Topic::State => 1,
        Topic::Network => 2,
        Topic::Consensus => 3,
        Topic::Storage => 4,
    }
}

/// A subscription: the topic it listens to and its pending events, oldest first.
pub type SubscriptionModel = (Topic, Seq<Event>);

/// The subscriptions after one event has been pushed to every subscriber of its topic.
pub open spec fn deliver(subs: Seq<SubscriptionModel>, de: DirectedEvent) -> Seq<SubscriptionModel> {
    Seq::new(
        subs.len(),
        |i: int|
            if subs[i].0 == de.0 {
                (subs[i].0, subs[i].1.push(de.1))
            } else {
                subs[i]
            },
    )
}

/// The subscriptions after a sequence of events has been delivered in order.
pub open spec fn deliver_all(subs: Seq<SubscriptionModel>, des: Seq<DirectedEvent>) -> Seq<
    SubscriptionModel,
>
    decreases des.len(),
{
    if des.len() == 0 {
        subs
    } else {
        deliver(deliver_all(subs, des.drop_last()), des.last())
    }
}

/// The events of `des` that were published on topic `t`, in publish order.
pub open spec fn on_topic(des: Seq<DirectedEvent>, t: Topic) -> Seq<Event>
    decreases des.len(),
{
    if des.len() == 0 {
        Seq::empty()
    } else if des.last().0 == t {
        on_topic(des.drop_last(), t).push(des.last().1)
    } else {
        on_topic(des.drop_last(), t)
    }
}

/// Number of subscriptions to `t`.
pub open spec fn count_on(subs: Seq<SubscriptionModel>, t: Topic) -> nat
    decreases subs.len(),
{
    if subs.len() == 0 {
        0
    } else {
        count_on(subs.drop_last(), t) + if subs.last().0 == t {
            1nat
        } else {
            0nat
        }
    }
}

/// Every subscriber of `t` has a free slot under the capacity `cap`.
pub open spec fn has_room(subs: Seq<SubscriptionModel>, t: Topic, cap: nat) -> bool {
    forall|i: int| 0 <= i < subs.len() && subs[i].0 == t ==> subs[i].1.len() < cap
}

/// Delivery keeps the number of subscriptions and their topics.
pub proof fn lemma_deliver_all_shape(subs: Seq<SubscriptionModel>, des: Seq<DirectedEvent>)
    ensures
        deliver_all(subs, des).len() == subs.len(),
        forall|i: int| 0 <= i < subs.len() ==> (#[trigger] deliver_all(subs, des)[i]).0 == subs[i].0,
    decreases des.len(),
{
    if des.len() > 0 {
        lemma_deliver_all_shape(subs, des.drop_last());
    }
}

/// Each subscriber of a topic receives every event published on that topic, in
/// publish order, after what it already held; events of other topics never reach it.
pub proof fn lemma_fifo_per_topic(subs: Seq<SubscriptionModel>, des: Seq<DirectedEvent>, i: int)
    requires
        0 <= i < subs.len(),
    ensures
        deliver_all(subs, des).len() == subs.len(),
        deliver_all(subs, des)[i] == (subs[i].0, subs[i].1 + on_topic(des, subs[i].0)),
    decreases des.len(),
{
    lemma_deliver_all_shape(subs, des);
    if des.len() == 0 {
        assert(subs[i].1 + Seq::<Event>::empty() =~= subs[i].1);
    } else {
        lemma_fifo_per_topic(subs, des.drop_last(), i);
        let prev = on_topic(des.drop_last(), subs[i].0);
        if des.last().0 == subs[i].0 {
            assert(subs[i].1 + prev.push(des.last().1) =~= (subs[i].1 + prev).push(des.last().1));
        }
    }
}

/// A subscription made after some events were dispatched sees none of them: its
/// queue holds exactly the events of its topic dispatched after it was made.
pub proof fn lemma_no_replay(
    subs: Seq<SubscriptionModel>,
    before: Seq<DirectedEvent>,
    t: Topic,
    after: Seq<DirectedEvent>,
)
    ensures
        ({
            let joined = deliver_all(subs, before).push((t, Seq::<Event>::empty()));
            deliver_all(joined, after)[joined.len() - 1] == (t, on_topic(after, t))
        }),
{
    let joined = deliver_all(subs, before).push((t, Seq::<Event>::empty()));
    lemma_fifo_per_topic(joined, after, joined.len() - 1);
    assert(Seq::<Event>::empty() + on_topic(after, t) =~= on_topic(after, t));
}

/// A subscriber whose queue holds as many events as the capacity stops the
/// delivery of any further event on its topic; once it has taken one event, and
/// no other subscriber of the topic is full, delivery can go on.
pub proof fn lemma_full_queue_blocks(subs: Seq<SubscriptionModel>, t: Topic, cap: nat, i: int)
    requires
        0 <= i < subs.len(),
        subs[i].0 == t,
        subs[i].1.len() == cap,
        cap > 0,
        forall|j: int| 0 <= j < subs.len() && j != i && subs[j].0 == t ==> subs[j].1.len() < cap,
    ensures
        !has_room(subs, t, cap),
        has_room(subs.update(i, (t, subs[i].1.drop_first())), t, cap),
{
}

/// Why a subscription could not be made.
#[derive(Clone, Copy, Debug, PartialEq, Eq, Structural)]
pub enum RouterError {
    /// The topic was never declared with `add_topic`.
    TopicNotFound,
}

/// What became of one event handed to the dispatch step.
#[derive(Clone, Copy, Debug, PartialEq, Eq, Structural)]
pub enum DispatchOutcome {
    /// A copy was queued for each of this many subscribers.
    Delivered(usize),
    /// The queue of this subscriber is full: nothing was queued, and the
    /// publisher has to wait until it is drained.
    Blocked(usize),
    /// The topic was never declared; the event was dropped.
    UnknownTopic,
}

pub struct Subscriber {
    topic: Topic,
    queue: Vec<Event>,
}

/// Topic-partitioned publish/subscribe hub with one bounded queue per subscriber.
pub struct EventRouter {
    capacities: Vec<Option<usize>>,
    subscribers: Vec<Subscriber>,
    started: bool,
}

impl EventRouter {
    /// Capacity of each subscriber queue of `t`, if `t` has been declared.
    pub closed spec fn capacity(&self, t: Topic) -> Option<usize> {
        self.capacities@[topic_index(t)]
    }

    /// The subscriptions in the order they were made.
    pub closed spec fn subscriptions(&self) -> Seq<SubscriptionModel> {
        self.subscribers@.map_values(|s: Subscriber| (s.topic, s.queue@))
    }

    /// Whether the dispatch loop has begun.
    pub closed spec fn is_started(&self) -> bool {
        self.started
    }

    pub closed spec fn wf(&self) -> bool {
        &&& self.capacities@.len() == 5
        &&& forall|k: int|
            0 <= k < 5 && (#[trigger] self.capacities@[k]) is Some ==> self.capacities@[k]->0 > 0
        &&& forall|i: int|
            0 <= i < self.subscriptions().len() ==> Self::sub_ok(
                #[trigger] self.subscriptions()[i],
                self.capacities@,
                self.started,
            )
    }

    pub closed spec fn sub_ok(s: SubscriptionModel, caps: Seq<Option<usize>>, started: bool) -> bool {
        &&& caps[topic_index(s.0)] is Some
        &&& s.1.len() <= caps[topic_index(s.0)]->0
        &&& !started ==> s.1.len() == 0
    }

    pub fn new() -> (r: Self)
        ensures
            r.wf(),
            !r.is_started(),
            r.subscriptions() == Seq::<SubscriptionModel>::empty(),
            forall|t: Topic| r.capacity(t) is None,
    {
        let r = EventRouter {
            capacities: vec![None, None, None, None, None],
            subscribers: Vec::new(),
            started: false,
        };
        assert forall|t: Topic| r.capacity(t) is None by {
            assert(0 <= topic_index(t) < 5);
        }
        assert(r.subscriptions() =~= Seq::<SubscriptionModel>::empty());
        r
    }

    /// Declares `topic` with room for `capacity` pending events per subscriber.
    /// Declaring it again sets the new capacity.
    pub fn add_topic(&mut self, topic: Topic, capacity: usize)
        requires
            old(self).wf(),
            !old(self).is_started(),
            capacity > 0,
        ensures
            final(self).wf(),
            !final(self).is_started(),
            final(self).subscriptions() == old(self).subscriptions(),
            final(self).capacity(topic) == Some(capacity),
            forall|t: Topic| t != topic ==> final(self).capacity(t) == old(self).capacity(t),
    {
        let k = topic_slot(topic);
        self.capacities.set(k, Some(capacity));
        assert forall|t: Topic| t != topic implies self.capacity(t) == old(self).capacity(t) by {
            assert(topic_index(t) != topic_index(topic));
        }
        assert forall|k: int|
            0 <= k < 5 && (#[trigger] self.capacities@[k]) is Some implies self.capacities@[k]->0
            > 0 by {
            if k != topic_index(topic) {
                assert(self.capacities@[k] == old(self).capacities@[k]);
            }
        }
        assert forall|i: int| 0 <= i < self.subscriptions().len() implies Self::sub_ok(
            #[trigger] self.subscriptions()[i],
            self.capacities@,
            self.started,
        ) by {
            assert(Self::sub_ok(old(self).subscriptions()[i], old(self).capacities@, false));
            let s = self.subscriptions()[i];
            if s.0 != topic {
                assert(self.capacity(s.0) == old(self).capacity(s.0));
            }
        }
    }

    /// Opens a new, empty queue on `topic` and returns its subscriber id.
    pub fn subscribe(&mut self, topic: Topic) -> (r: Result<usize, RouterError>)
        requires
            old(self).wf(),
        ensures
            final(self).wf(),
            final(self).is_started() == old(self).is_started(),
            forall|t: Topic| final(self).capacity(t) == old(self).capacity(t),
            old(self).capacity(topic) is None ==> r == Err::<usize, RouterError>(
                RouterError::TopicNotFound,
            ) && final(self).subscriptions() == old(self).subscriptions(),
            old(self).capacity(topic) is Some ==> (r matches Ok(id) && id == old(
                self,
            ).subscriptions().len()) && final(self).subscriptions() == old(self).subscriptions().push(
                (topic, Seq::<Event>::empty()),
            ),
    {
        let k = topic_slot(topic);
        if self.capacities[k].is_none() {
            return Err(RouterError::TopicNotFound);
        }
        let id = self.subscribers.len();
        self.subscribers.push(Subscriber { topic, queue: Vec::new() });
        assert(self.subscriptions() =~= old(self).subscriptions().push(
            (topic, Seq::<Event>::empty()),
        ));
        assert forall|i: int| 0 <= i < self.subscriptions().len() implies Self::sub_ok(
            #[trigger] self.subscriptions()[i],
            self.capacities@,
            self.started,
        ) by {
            if i < old(self).subscriptions().len() {
                assert(Self::sub_ok(old(self).subscriptions()[i], self.capacities@, self.started));
            }
        }
        Ok(id)
    }

    /// Marks the dispatch loop as running: no topic can be declared after this.
    pub fn start(&mut self)
        requires
            old(self).wf(),
        ensures
            final(self).wf(),
            final(self).is_started(),
            final(self).subscriptions() == old(self).subscriptions(),
            forall|t: Topic| final(self).capacity(t) == old(self).capacity(t),
    {
        self.started = true;
        assert forall|i: int| 0 <= i < self.subscriptions().len() implies Self::sub_ok(
            #[trigger] self.subscriptions()[i],
            self.capacities@,
            self.started,
        ) by {
            assert(Self::sub_ok(old(self).subscriptions()[i], self.capacities@, old(self).started));
        }
    }

    /// Number of subscriptions made so far.
    pub fn subscriber_count(&self) -> (r: usize)
        ensures
            r == self.subscriptions().len(),
    {
        self.subscribers.len()
    }

    /// Number of events waiting in the queue of subscriber `id`.
    pub fn pending(&self, id: usize) -> (r: usize)
        requires
            id < self.subscriptions().len(),
        ensures
            r == self.subscriptions()[id as int].1.len(),
    {
        self.subscribers[id].queue.len()
    }

    /// One step of the dispatch loop. When every subscriber of the event's topic
    /// has room, a copy is queued for each of them; otherwise nothing changes and
    /// the first full subscriber is named.
    pub fn dispatch(&mut self, de: DirectedEvent) -> (r: DispatchOutcome)
        requires
            old(self).wf(),
            old(self).is_started(),
        ensures
            final(self).wf(),
            final(self).is_started(),
            forall|t: Topic| final(self).capacity(t) == old(self).capacity(t),
            old(self).capacity(de.0) is None ==> r == DispatchOutcome::UnknownTopic
                && final(self).subscriptions() == old(self).subscriptions(),
            old(self).capacity(de.0) is Some && has_room(
                old(self).subscriptions(),
                de.0,
                old(self).capacity(de.0)->0 as nat,
            ) ==> final(self).subscriptions() == deliver(old(self).subscriptions(), de) && (r matches DispatchOutcome::Delivered(c) && c == count_on(old(self).subscriptions(), de.0)),
            old(self).capacity(de.0) is Some && !has_room(
                old(self).subscriptions(),
                de.0,
                old(self).capacity(de.0)->0 as nat,
            ) ==> final(self).subscriptions() == old(self).subscriptions() && (r matches DispatchOutcome::Blocked(
                i,
            ) && i < old(self).subscriptions().len() && old(self).subscriptions()[i as int].0
                == de.0 && old(self).subscriptions()[i as int].1.len() >= old(
                self,
            ).capacity(de.0)->0),
    {
        let k = topic_slot(de.0);
        let cap = match self.capacities[k] {
            None => {
                return DispatchOutcome::UnknownTopic;
            },
            Some(c) => c,
        };
        let n = self.subscribers.len();
        let ghost subs0 = self.subscriptions();
        let mut i: usize = 0;
        let mut count: usize = 0;
        while i < n
            invariant
                self.wf(),
                self.is_started(),
                self.capacities == old(self).capacities,
                subs0 == self.subscriptions(),
                subs0 == old(self).subscriptions(),
                n == subs0.len(),
                i <= n,
                count <= i,
                cap == self.capacity(de.0)->0,
                self.capacity(de.0) is Some,
                forall|j: int| 0 <= j < i && subs0[j].0 == de.0 ==> subs0[j].1.len() < cap,
                count == count_on(subs0.take(i as int), de.0),
            decreases n - i,
        {
            proof {
                assert(subs0.take(i as int + 1).drop_last() =~= subs0.take(i as int));
            }
            if self.subscribers[i].topic == de.0 && self.subscribers[i].queue.len() >= cap {
                assert(subs0[i as int].0 == de.0 && subs0[i as int].1.len() >= cap);
                return DispatchOutcome::Blocked(i);
            }
            if self.subscribers[i].topic == de.0 {
                count = count + 1;
            }
            i = i + 1;
        }
        assert(subs0.take(n as int) =~= subs0);
        let mut i: usize = 0;
        while i < n
            invariant
                self.wf(),
                self.is_started(),
                self.capacities == old(self).capacities,
                n == self.subscribers@.len(),
                n == subs0.len(),
                i <= n,
                cap == self.capacity(de.0)->0,
                self.capacity(de.0) is Some,
                has_room(subs0, de.0, cap as nat),
                forall|j: int| 0 <= j < i ==> self.subscriptions()[j] == deliver(subs0, de)[j],
                forall|j: int| i <= j < n ==> self.subscriptions()[j] == subs0[j],
            decreases n - i,
        {
            let ghost before = self.subscriptions();
            if self.subscribers[i].topic == de.0 {
                self.subscribers[i].queue.push(de.1);
            }
            proof {
                assert(self.subscriptions() =~= before.update(i as int, deliver(subs0, de)[i as int]));
                assert forall|j: int| 0 <= j < self.subscriptions().len() implies Self::sub_ok(
                    #[trigger] self.subscriptions()[j],
                    self.capacities@,
                    self.started,
                ) by {
                    assert(Self::sub_ok(before[j], self.capacities@, self.started));
                    assert(Self::sub_ok(subs0[j], self.capacities@, self.started));
                }
            }
            i = i + 1;
        }
        assert(self.subscriptions() =~= deliver(subs0, de));
        DispatchOutcome::Delivered(count)
    }

    /// Hands the events of `des` to the dispatch step in order, stopping at the
    /// first one that a full queue holds back; returns how many were handed
    /// over. Each subscriber then holds, after what it had, exactly the events
    /// of its topic among those, in publish order.
    pub fn dispatch_all(&mut self, des: &Vec<DirectedEvent>) -> (n: usize)
        requires
            old(self).wf(),
            old(self).is_started(),
        ensures
            final(self).wf(),
            final(self).is_started(),
            forall|t: Topic| final(self).capacity(t) == old(self).capacity(t),
            n <= des@.len(),
            final(self).subscriptions() == deliver_all(old(self).subscriptions(), des@.take(n as int)),
            final(self).subscriptions().len() == old(self).subscriptions().len(),
            forall|i: int|
                0 <= i < old(self).subscriptions().len() ==> #[trigger] final(self).subscriptions()[i]
                    == (old(self).subscriptions()[i].0, old(self).subscriptions()[i].1 + on_topic(
                    des@.take(n as int),
                    old(self).subscriptions()[i].0,
                )),
            n < des@.len() ==> final(self).capacity(des@[n as int].0) is Some && !has_room(
                final(self).subscriptions(),
                des@[n as int].0,
                final(self).capacity(des@[n as int].0)->0 as nat,
            ),
    {
        let ghost subs0 = self.subscriptions();
        let ghost r0 = *self;
        let mut i: usize = 0;
        while i < des.len()
            invariant
                self.wf(),
                self.is_started(),
                r0 == *old(self),
                subs0 == r0.subscriptions(),
                forall|t: Topic| self.capacity(t) == r0.capacity(t),
                i <= des@.len(),
                self.subscriptions() == deliver_all(subs0, des@.take(i as int)),
            ensures
                self.wf(),
                self.is_started(),
                forall|t: Topic| self.capacity(t) == r0.capacity(t),
                i <= des@.len(),
                self.subscriptions() == deliver_all(subs0, des@.take(i as int)),
                i < des@.len() ==> self.capacity(des@[i as int].0) is Some && !has_room(
                    self.subscriptions(),
                    des@[i as int].0,
                    self.capacity(des@[i as int].0)->0 as nat,
                ),
            decreases des@.len() - i,
        {
            let de = des[i];
            let ghost before = self.subscriptions();
            match self.dispatch(de) {
                DispatchOutcome::Blocked(_) => {
                    break;
                },
                DispatchOutcome::UnknownTopic => {
                    proof {
                        assert forall|j: int| 0 <= j < before.len() implies before[j].0 != de.0 by {
                            assert(Self::sub_ok(before[j], self.capacities@, self.started));
                        }
                        assert(deliver(before, de) =~= before);
                    }
                },
                DispatchOutcome::Delivered(_) => {},
            }
            proof {
                assert(des@.take(i as int + 1).drop_last() =~= des@.take(i as int));
            }
            i = i + 1;
        }
        proof {
            lemma_deliver_all_shape(subs0, des@.take(i as int));
            assert forall|j: int| 0 <= j < subs0.len() implies #[trigger] self.subscriptions()[j] == (
                subs0[j].0,
                subs0[j].1 + on_topic(des@.take(i as int), subs0[j].0),
            ) by {
                lemma_fifo_per_topic(subs0, des@.take(i as int), j);
            }
        }
        i
    }

    /// Takes the oldest pending event of subscriber `id`, if there is one.
    pub fn receive(&mut self, id: usize) -> (r: Option<Event>)
        requires
            old(self).wf(),
            id < old(self).subscriptions().len(),
        ensures
            final(self).wf(),
            final(self).is_started() == old(self).is_started(),
            forall|t: Topic| final(self).capacity(t) == old(self).capacity(t),
            old(self).subscriptions()[id as int].1.len() == 0 ==> r is None
                && final(self).subscriptions() == old(self).subscriptions(),
            old(self).subscriptions()[id as int].1.len() > 0 ==> r == Some(
                old(self).subscriptions()[id as int].1[0],
            ) && final(self).subscriptions() == old(self).subscriptions().update(
                id as int,
                (
                    old(self).subscriptions()[id as int].0,
                    old(self).subscriptions()[id as int].1.drop_first(),
                ),
            ),
    {
        if self.subscribers[id].queue.len() == 0 {
            return None;
        }
        let e = self.subscribers[id].queue.remove(0);
        proof {
            let sq = old(self).subscriptions()[id as int].1;
            assert(sq.remove(0) =~= sq.drop_first());
            assert(self.subscriptions() =~= old(self).subscriptions().update(
                id as int,
                (old(self).subscriptions()[id as int].0, sq.drop_first()),
            ));
            assert forall|j: int| 0 <= j < self.subscriptions().len() implies Self::sub_ok(
                #[trigger] self.subscriptions()[j],
                self.capacities@,
                self.started,
            ) by {
                assert(Self::sub_ok(old(self).subscriptions()[j], self.capacities@, self.started));
            }
        }
        Some(e)
    }
}

} // verus!
