use vrrb_node::config::{IpAddress, KeyPair, NodeConfig, NodeType, SocketAddress};
use vrrb_node::event::{Event, RuntimeModuleState, Topic};
use vrrb_node::module::BroadcastModule;
use vrrb_node::node::{EnabledModules, ModuleSlot, Node, NodeError, WaitAction, WaitEvent};
use vrrb_node::router::DispatchOutcome;

fn sample_config() -> NodeConfig {
    NodeConfig {
        id: "node-1".to_string(),
        idx: 7,
        data_dir: "/tmp/vrrb".to_string(),
        db_path: "/tmp/vrrb/db".to_string(),
        node_type: NodeType::Bootstrap,
        raptorq_gossip_address: SocketAddress::localhost(9001),
        udp_gossip_address: SocketAddress::localhost(9002),
        http_api_address: SocketAddress::localhost(9003),
        http_api_title: "Node API".to_string(),
        http_api_version: "1.0".to_string(),
        http_api_shutdown_timeout: Some(5),
        jsonrpc_server_address: SocketAddress::localhost(9293),
        preload_mock_state: false,
        bootstrap_node_addresses: vec![SocketAddress { ip: IpAddress::V4(0x0a00_0001), port: 80 }],
        keypair: KeyPair { secret_key: vec![1, 2, 3], public_key: vec![4, 5] },
        disable_networking: false,
    }
}

fn none_enabled() -> EnabledModules {
    EnabledModules {
        state: false,
        mining: false,
        gossip: false,
        txn_validator: false,
        jsonrpc: false,
        http: false,
    }
}

#[test]
fn wait_with_no_modules_finishes_cleanly() {
    let mut node = Node::start(sample_config(), none_enabled());
    assert_eq!(node.status(), RuntimeModuleState::Running);
    assert_eq!(node.wait(), WaitAction::AwaitSignal);
    assert_eq!(node.status(), RuntimeModuleState::Running);
    assert_eq!(node.on_event(WaitEvent::SignalReceived), WaitAction::PublishStop);
    assert_eq!(node.status(), RuntimeModuleState::Terminating);
    assert_eq!(node.on_event(WaitEvent::StopSent(true)), WaitAction::CloseEvents);
    assert_eq!(node.on_event(WaitEvent::EventsClosed), WaitAction::JoinRouter);
    assert_eq!(node.status(), RuntimeModuleState::Terminating);
    assert_eq!(node.on_event(WaitEvent::RouterExited(true)), WaitAction::Finish);
    assert_eq!(node.status(), RuntimeModuleState::Stopped);
    assert_eq!(node.outcome(), Ok(()));
}

#[test]
fn joins_follow_declared_order() {
    let enabled = EnabledModules { state: true, gossip: true, ..none_enabled() };
    let mut node = Node::start(sample_config(), enabled);
    node.wait();
    node.on_event(WaitEvent::SignalReceived);
    assert_eq!(node.on_event(WaitEvent::StopSent(true)), WaitAction::Join(ModuleSlot::State));
    // the gossip module finishing first is not observed: the router cannot be
    // joined and the node stays running until the state module is joined
    assert_eq!(node.on_event(WaitEvent::RouterExited(true)), WaitAction::Join(ModuleSlot::State));
    assert_eq!(node.on_event(WaitEvent::EventsClosed), WaitAction::Join(ModuleSlot::State));
    assert_eq!(node.status(), RuntimeModuleState::Terminating);
    assert_eq!(node.on_event(WaitEvent::ModuleExited(true)), WaitAction::Join(ModuleSlot::Gossip));
    assert_eq!(node.status(), RuntimeModuleState::Terminating);
    assert_eq!(node.on_event(WaitEvent::ModuleExited(true)), WaitAction::CloseEvents);
    assert_eq!(node.on_event(WaitEvent::EventsClosed), WaitAction::JoinRouter);
    assert_eq!(node.on_event(WaitEvent::RouterExited(true)), WaitAction::Finish);
    assert_eq!(node.status(), RuntimeModuleState::Stopped);
    assert_eq!(node.outcome(), Ok(()));
}

#[test]
fn all_slots_joined_in_order() {
    let enabled = EnabledModules {
        state: true,
        mining: true,
        gossip: true,
        txn_validator: true,
        jsonrpc: true,
        http: true,
    };
    let mut node = Node::start(sample_config(), enabled);
    node.wait();
    node.on_event(WaitEvent::SignalReceived);
    let mut seen = vec![node.on_event(WaitEvent::StopSent(true))];
    for _ in 0..6 {
        seen.push(node.on_event(WaitEvent::ModuleExited(true)));
    }
    assert_eq!(
        seen,
        vec![
            WaitAction::Join(ModuleSlot::State),
            WaitAction::Join(ModuleSlot::Mining),
            WaitAction::Join(ModuleSlot::Gossip),
            WaitAction::Join(ModuleSlot::TxnValidator),
            WaitAction::Join(ModuleSlot::JsonRpc),
            WaitAction::Join(ModuleSlot::Http),
            WaitAction::CloseEvents,
        ]
    );
}

#[test]
fn failed_module_is_reported_after_remaining_joins() {
    let enabled = EnabledModules { mining: true, txn_validator: true, http: true, ..none_enabled() };
    let mut node = Node::start(sample_config(), enabled);
    node.wait();
    node.on_event(WaitEvent::SignalReceived);
    assert_eq!(node.on_event(WaitEvent::StopSent(true)), WaitAction::Join(ModuleSlot::Mining));
    assert_eq!(node.on_event(WaitEvent::ModuleExited(false)), WaitAction::Join(ModuleSlot::TxnValidator));
    assert_eq!(node.on_event(WaitEvent::ModuleExited(false)), WaitAction::Join(ModuleSlot::Http));
    assert_eq!(node.on_event(WaitEvent::ModuleExited(true)), WaitAction::CloseEvents);
    node.on_event(WaitEvent::EventsClosed);
    assert_eq!(node.on_event(WaitEvent::RouterExited(false)), WaitAction::Finish);
    assert_eq!(node.status(), RuntimeModuleState::Stopped);
    assert_eq!(node.outcome(), Err(NodeError::ModuleFailed(ModuleSlot::Mining)));
}

#[test]
fn router_failure_is_reported() {
    let mut node = Node::start(sample_config(), none_enabled());
    node.wait();
    node.on_event(WaitEvent::SignalReceived);
    node.on_event(WaitEvent::StopSent(true));
    node.on_event(WaitEvent::EventsClosed);
    assert_eq!(node.on_event(WaitEvent::RouterExited(false)), WaitAction::Finish);
    assert_eq!(node.outcome(), Err(NodeError::RouterFailed));
}

#[test]
fn lost_control_channel_is_an_error() {
    let mut node = Node::start(sample_config(), none_enabled());
    node.wait();
    assert_eq!(node.on_event(WaitEvent::SignalLost), WaitAction::Finish);
    assert_eq!(node.outcome(), Err(NodeError::ControlChannelClosed));
    assert_eq!(node.status(), RuntimeModuleState::Running);
    assert_eq!(node.on_event(WaitEvent::SignalReceived), WaitAction::Finish);
}

#[test]
fn undeliverable_stop_is_an_error() {
    let mut node = Node::start(sample_config(), EnabledModules { state: true, ..none_enabled() });
    node.wait();
    node.on_event(WaitEvent::SignalReceived);
    assert_eq!(node.on_event(WaitEvent::StopSent(false)), WaitAction::Finish);
    assert_eq!(node.outcome(), Err(NodeError::StopNotDelivered));
}

#[test]
fn events_before_wait_change_nothing() {
    let mut node = Node::start(sample_config(), none_enabled());
    assert_eq!(node.on_event(WaitEvent::SignalReceived), WaitAction::AwaitSignal);
    assert_eq!(node.status(), RuntimeModuleState::Running);
    assert_eq!(node.wait(), WaitAction::AwaitSignal);
    assert_eq!(node.wait(), WaitAction::AwaitSignal);
    assert_eq!(node.on_event(WaitEvent::SignalReceived), WaitAction::PublishStop);
    assert_eq!(node.wait(), WaitAction::PublishStop);
}

#[test]
fn accessors_project_the_config() {
    let node = Node::start(sample_config(), none_enabled());
    assert_eq!(node.id(), "node-1");
    assert_eq!(node.node_idx(), 7);
    assert_eq!(node.get_node_idx(), 7);
    assert_eq!(node.node_type(), NodeType::Bootstrap);
    assert_eq!(node.get_node_type(), NodeType::Bootstrap);
    assert!(node.is_bootsrap());
    assert_eq!(node.udp_gossip_address().port, 9002);
    assert_eq!(node.raprtorq_gossip_address().port, 9001);
    assert_eq!(node.jsonrpc_server_address().port, 9293);
    assert_eq!(node.bootstrap_node_addresses(), vec![SocketAddress { ip: IpAddress::V4(0x0a00_0001), port: 80 }]);
    assert_eq!(node.keypair().secret_key, vec![1, 2, 3]);
    assert_eq!(node.keypair().public_key, vec![4, 5]);
    let config = node.config();
    assert_eq!(config.db_path, "/tmp/vrrb/db");
    assert_eq!(config.http_api_shutdown_timeout, Some(5));
    let full = Node::start(NodeConfig { node_type: NodeType::Full, ..sample_config() }, none_enabled());
    assert!(!full.is_bootsrap());
}

#[test]
fn gossip_only_node_starts_and_stops() {
    let runtime = tokio::runtime::Runtime::new().unwrap();
    let bound = runtime.block_on(tokio::net::UdpSocket::bind("127.0.0.1:0")).unwrap();
    let port = bound.local_addr().unwrap().port();
    assert_ne!(port, 0);

    let mut router = Node::setup_event_routing_system();
    let receivers = Node::subscribe_modules(&mut router);
    let control = router.subscribe(Topic::Control).unwrap();
    let mut module = BroadcastModule::new(SocketAddress::localhost(port));
    assert_ne!(module.local_addr().port, 0);
    router.start();

    let config = NodeConfig { udp_gossip_address: module.local_addr(), ..sample_config() };
    let mut node = Node::start(config, EnabledModules { gossip: true, ..none_enabled() });
    assert_eq!(node.udp_gossip_address().port, port);
    assert_eq!(node.wait(), WaitAction::AwaitSignal);
    assert_eq!(node.on_event(WaitEvent::SignalReceived), WaitAction::PublishStop);
    assert_eq!(Node::stop_event(), (Topic::Control, Event::Stop));
    assert_eq!(router.dispatch(Node::stop_event()), DispatchOutcome::Delivered(3));
    assert_eq!(node.on_event(WaitEvent::StopSent(true)), WaitAction::Join(ModuleSlot::Gossip));
    let stopped = module.run(&mut router, control);
    assert!(stopped);
    assert_eq!(module.status(), RuntimeModuleState::Terminating);
    assert_eq!(node.on_event(WaitEvent::ModuleExited(stopped)), WaitAction::CloseEvents);
    assert_eq!(node.on_event(WaitEvent::EventsClosed), WaitAction::JoinRouter);
    assert_eq!(node.on_event(WaitEvent::RouterExited(true)), WaitAction::Finish);
    assert_eq!(node.status(), RuntimeModuleState::Stopped);
    assert_eq!(node.outcome(), Ok(()));
    assert_eq!(router.receive(receivers.jsonrpc), Some(Event::Stop));
}
