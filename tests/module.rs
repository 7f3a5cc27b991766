use vrrb_node::config::SocketAddress;
use vrrb_node::event::{Event, RuntimeModuleState, Topic};
use vrrb_node::module::{BroadcastModule, RuntimeModule};
use vrrb_node::router::EventRouter;

fn router_with_control(events: &[Event]) -> (EventRouter, usize) {
    let mut router = EventRouter::new();
    router.add_topic(Topic::Control, 10);
    let sub = router.subscribe(Topic::Control).unwrap();
    router.start();
    for e in events {
        router.dispatch((Topic::Control, *e));
    }
    (router, sub)
}

#[test]
fn test_broadcast_module() {
    let module = BroadcastModule::new(SocketAddress::localhost(0));
    assert_eq!(module.status(), RuntimeModuleState::Stopped);
    assert_eq!(module.name(), "BroadcastModule");
    assert_eq!(module.label(), "BroadcastModule");
    assert_eq!(module.local_addr(), SocketAddress::localhost(0));
}

#[test]
fn module_ids_are_fresh_uuids() {
    let a = BroadcastModule::new(SocketAddress::localhost(1));
    let b = BroadcastModule::new(SocketAddress::localhost(1));
    assert_eq!(a.id().len(), 36);
    assert_eq!(a.id().matches('-').count(), 4);
    assert_ne!(a.id(), b.id());
}

#[test]
fn stop_terminates_and_leaves_later_events_queued() {
    let (mut router, sub) =
        router_with_control(&[Event::Message(1), Event::NoOp, Event::Stop, Event::Message(2)]);
    let mut module = BroadcastModule::new(SocketAddress::localhost(0));
    assert!(module.run(&mut router, sub));
    assert_eq!(module.status(), RuntimeModuleState::Terminating);
    assert_eq!(router.pending(sub), 1);
    assert_eq!(router.receive(sub), Some(Event::Message(2)));
}

#[test]
fn run_without_stop_drains_queue_and_keeps_running() {
    let (mut router, sub) = router_with_control(&[Event::Message(1), Event::Message(2)]);
    let mut module = BroadcastModule::new(SocketAddress::localhost(0));
    assert!(!module.run(&mut router, sub));
    assert_eq!(module.status(), RuntimeModuleState::Running);
    assert_eq!(router.pending(sub), 0);
}

#[test]
fn run_on_empty_queue_changes_nothing() {
    let (mut router, sub) = router_with_control(&[]);
    let mut module = BroadcastModule::new(SocketAddress::localhost(0));
    assert!(!module.run(&mut router, sub));
    assert_eq!(module.status(), RuntimeModuleState::Stopped);
}

#[test]
fn handle_reports_state_without_storing_it() {
    let mut module = BroadcastModule::new(SocketAddress::localhost(0));
    assert_eq!(module.handle(Event::Stop), RuntimeModuleState::Terminating);
    assert_eq!(module.handle(Event::Message(3)), RuntimeModuleState::Running);
    assert_eq!(module.status(), RuntimeModuleState::Stopped);
    module.set_status(RuntimeModuleState::Running);
    assert_eq!(RuntimeModule::status(&module), RuntimeModuleState::Running);
    assert_eq!(RuntimeModule::name(&module), "BroadcastModule");
}
