use vrrb_node::event::{Event, Topic};
use vrrb_node::node::Node;
use vrrb_node::router::{DispatchOutcome, EventRouter, RouterError};

fn started_router() -> EventRouter {
    let mut router = Node::setup_event_routing_system();
    router.start();
    router
}

#[test]
fn every_subscriber_gets_topic_events_in_order() {
    let mut router = Node::setup_event_routing_system();
    let a = router.subscribe(Topic::Network).unwrap();
    let b = router.subscribe(Topic::Network).unwrap();
    let c = router.subscribe(Topic::Storage).unwrap();
    router.start();
    assert_eq!(router.dispatch((Topic::Network, Event::Message(1))), DispatchOutcome::Delivered(2));
    assert_eq!(router.dispatch((Topic::Storage, Event::Message(9))), DispatchOutcome::Delivered(1));
    assert_eq!(router.dispatch((Topic::Network, Event::Message(2))), DispatchOutcome::Delivered(2));
    assert_eq!(router.dispatch((Topic::Network, Event::Stop)), DispatchOutcome::Delivered(2));
    for sub in [a, b] {
        assert_eq!(router.receive(sub), Some(Event::Message(1)));
        assert_eq!(router.receive(sub), Some(Event::Message(2)));
        assert_eq!(router.receive(sub), Some(Event::Stop));
        assert_eq!(router.receive(sub), None);
    }
    assert_eq!(router.receive(c), Some(Event::Message(9)));
    assert_eq!(router.receive(c), None);
}

#[test]
fn late_subscriber_sees_no_earlier_event() {
    let mut router = started_router();
    assert_eq!(router.dispatch((Topic::Consensus, Event::Message(5))), DispatchOutcome::Delivered(0));
    let late = router.subscribe(Topic::Consensus).unwrap();
    assert_eq!(router.pending(late), 0);
    assert_eq!(router.receive(late), None);
    assert_eq!(router.dispatch((Topic::Consensus, Event::Message(6))), DispatchOutcome::Delivered(1));
    assert_eq!(router.receive(late), Some(Event::Message(6)));
}

#[test]
fn full_single_slot_queue_blocks_until_drained() {
    let mut router = Node::setup_event_routing_system();
    let sub = router.subscribe(Topic::Control).unwrap();
    router.start();
    assert_eq!(router.dispatch((Topic::Control, Event::Message(1))), DispatchOutcome::Delivered(1));
    assert_eq!(router.dispatch((Topic::Control, Event::Message(2))), DispatchOutcome::Blocked(sub));
    assert_eq!(router.pending(sub), 1);
    assert_eq!(router.receive(sub), Some(Event::Message(1)));
    assert_eq!(router.dispatch((Topic::Control, Event::Message(2))), DispatchOutcome::Delivered(1));
    assert_eq!(router.receive(sub), Some(Event::Message(2)));
}

#[test]
fn blocked_dispatch_delivers_to_no_one() {
    let mut router = Node::setup_event_routing_system();
    let roomy = router.subscribe(Topic::State).unwrap();
    let busy = router.subscribe(Topic::State).unwrap();
    router.start();
    assert_eq!(router.dispatch((Topic::State, Event::NoOp)), DispatchOutcome::Delivered(2));
    assert_eq!(router.receive(roomy), Some(Event::NoOp));
    assert_eq!(router.dispatch((Topic::State, Event::Stop)), DispatchOutcome::Blocked(busy));
    assert_eq!(router.pending(roomy), 0);
    assert_eq!(router.pending(busy), 1);
}

#[test]
fn subscribing_to_undeclared_topic_fails() {
    let mut router = EventRouter::new();
    router.add_topic(Topic::Network, 4);
    assert_eq!(router.subscribe(Topic::Control), Err(RouterError::TopicNotFound));
    assert_eq!(router.subscriber_count(), 0);
    assert_eq!(router.subscribe(Topic::Network), Ok(0));
    assert_eq!(router.subscriber_count(), 1);
}

#[test]
fn dispatch_on_undeclared_topic_is_dropped() {
    let mut router = EventRouter::new();
    router.add_topic(Topic::Network, 4);
    let sub = router.subscribe(Topic::Network).unwrap();
    router.start();
    assert_eq!(router.dispatch((Topic::Storage, Event::Stop)), DispatchOutcome::UnknownTopic);
    assert_eq!(router.pending(sub), 0);
}

#[test]
fn redeclared_topic_takes_new_capacity() {
    let mut router = EventRouter::new();
    router.add_topic(Topic::Storage, 3);
    router.add_topic(Topic::Storage, 1);
    let sub = router.subscribe(Topic::Storage).unwrap();
    router.start();
    assert_eq!(router.dispatch((Topic::Storage, Event::NoOp)), DispatchOutcome::Delivered(1));
    assert_eq!(router.dispatch((Topic::Storage, Event::NoOp)), DispatchOutcome::Blocked(sub));
}

#[test]
fn default_capacities_of_node_router() {
    let mut router = Node::setup_event_routing_system();
    let control = router.subscribe(Topic::Control).unwrap();
    let network = router.subscribe(Topic::Network).unwrap();
    router.start();
    for i in 0..100u64 {
        assert_eq!(router.dispatch((Topic::Network, Event::Message(i))), DispatchOutcome::Delivered(1));
    }
    assert_eq!(router.dispatch((Topic::Network, Event::Message(100))), DispatchOutcome::Blocked(network));
    assert_eq!(router.dispatch((Topic::Control, Event::Stop)), DispatchOutcome::Delivered(1));
    assert_eq!(router.dispatch((Topic::Control, Event::Stop)), DispatchOutcome::Blocked(control));
}

#[test]
fn node_subscribes_each_module_to_its_topic() {
    let mut router = Node::setup_event_routing_system();
    let r = Node::subscribe_modules(&mut router);
    assert_eq!(router.subscriber_count(), 8);
    assert_eq!((r.mempool, r.vrrbdb, r.network, r.controller), (0, 1, 2, 3));
    assert_eq!((r.validator, r.miner, r.jsonrpc, r.http), (4, 5, 6, 7));
    router.start();
    assert_eq!(router.dispatch((Topic::Control, Event::Stop)), DispatchOutcome::Delivered(2));
    assert_eq!(router.receive(r.jsonrpc), Some(Event::Stop));
    assert_eq!(router.receive(r.http), Some(Event::Stop));
    assert_eq!(router.receive(r.mempool), None);
    assert_eq!(router.dispatch((Topic::Storage, Event::NoOp)), DispatchOutcome::Delivered(2));
    assert_eq!(router.receive(r.vrrbdb), Some(Event::NoOp));
}

#[test]
fn batch_dispatch_fans_out_in_order_and_stops_at_full_queue() {
    let mut router = Node::setup_event_routing_system();
    let control = router.subscribe(Topic::Control).unwrap();
    let net_a = router.subscribe(Topic::Network).unwrap();
    let net_b = router.subscribe(Topic::Network).unwrap();
    router.start();
    let batch = vec![
        (Topic::Network, Event::Message(1)),
        (Topic::State, Event::Message(7)),
        (Topic::Control, Event::Message(2)),
        (Topic::Network, Event::Message(3)),
        (Topic::Control, Event::Stop),
        (Topic::Network, Event::Message(4)),
    ];
    assert_eq!(router.dispatch_all(&batch), 4);
    for sub in [net_a, net_b] {
        assert_eq!(router.receive(sub), Some(Event::Message(1)));
        assert_eq!(router.receive(sub), Some(Event::Message(3)));
        assert_eq!(router.receive(sub), None);
    }
    assert_eq!(router.receive(control), Some(Event::Message(2)));
    assert_eq!(router.dispatch_all(&batch[4..].to_vec()), 2);
    assert_eq!(router.receive(control), Some(Event::Stop));
    assert_eq!(router.receive(net_a), Some(Event::Message(4)));
}
