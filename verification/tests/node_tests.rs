use streetgrid::comms::ActivateRelayByIndex;
use streetgrid::comms::ActivateRelayByPriority;
use streetgrid::comms::EnterBlackStart;
use streetgrid::comms::EnterIsland;
use streetgrid::comms::IncomingCommand;
use streetgrid::comms::LoRaCommunication;
use streetgrid::comms::LoadShed;
use streetgrid::comms::OrchestratorClient;
use streetgrid::hal::gpio::MockRelayDriver;
use streetgrid::node::EdgeNode;
use streetgrid::types::MeshType;
use streetgrid::types::NodeState;
use streetgrid::types::Priority;
use streetgrid::types::Relay;
use streetgrid::types::RelayType;

type TestNode = EdgeNode<MockRelayDriver, LoRaCommunication>;

fn relay(id: &str, name: &str, relay_type: RelayType, priority: Priority, amperage: u32) -> Relay {
    Relay {
        id: id.to_string(),
        name: name.to_string(),
        relay_type,
        priority,
        amperage,
        is_closed: true,
    }
}

fn node_with(relays: Vec<Relay>, mesh: MeshType) -> TestNode {
    EdgeNode::new("test_node", relays, Vec::new(), None, None, 1200, mesh)
}

#[test]
fn test_node_initialization() {
    let relays = vec![relay("r_grid", "Main Grid Tie", RelayType::Grid, Priority::Critical, 100)];
    let node = node_with(relays, MeshType::AdHoc);
    assert_eq!(node.relays.len(), 1);

    // Check for Grid relay
    let grid = node.relays.iter().find(|r| r.relay_type == RelayType::Grid).unwrap();
    assert!(grid.is_closed);
}

#[test]
fn test_load_shedding() {
    let relays = vec![
        relay("r_hvac", "HVAC", RelayType::Load, Priority::Medium, 20),
        relay("r_aux", "Living Room Outlets", RelayType::Load, Priority::Low, 10),
    ];
    let mut node = node_with(relays, MeshType::AdHoc);

    // Ensure everything starts closed
    assert!(node.relays.iter().all(|r| r.is_closed));

    // Shed Low priority
    node.shed_load(Priority::Low);

    let aux = node.relays.iter().find(|r| r.id == "r_aux").unwrap();
    assert_eq!(aux.is_closed, false); // Low priority should be open

    let hvac = node.relays.iter().find(|r| r.id == "r_hvac").unwrap();
    assert_eq!(hvac.is_closed, true); // Medium priority should still be closed
}

#[test]
fn test_island_mode_transition() {
    let relays = vec![
        relay("r_grid", "Main Grid Tie", RelayType::Grid, Priority::Critical, 100),
        relay("r_aux", "Living Room Outlets", RelayType::Load, Priority::Low, 10),
    ];
    let mut node = node_with(relays, MeshType::AdHoc);
    node.enter_island_mode();

    assert_eq!(node.state, NodeState::Islanded);

    let grid = node.relays.iter().find(|r| r.relay_type == RelayType::Grid).unwrap();
    assert_eq!(grid.is_closed, false); // Grid must be disconnected

    let aux = node.relays.iter().find(|r| r.id == "r_aux").unwrap();
    assert_eq!(aux.is_closed, false); // Low priority shed automatically
}

#[test]
fn test_government_mesh_keeps_grid_connected() {
    let relays = vec![
        relay("r_grid", "Main Grid Tie", RelayType::Grid, Priority::Critical, 100),
        relay("r_aux", "Living Room Outlets", RelayType::Load, Priority::Low, 10),
    ];
    let mut node = node_with(relays, MeshType::GovernmentSanctioned);
    node.enter_island_mode();

    assert_eq!(node.state, NodeState::Islanded);

    // Government mesh: Grid relay stays CONNECTED (MID handles isolation)
    let grid = node.relays.iter().find(|r| r.relay_type == RelayType::Grid).unwrap();
    assert_eq!(grid.is_closed, true); // Grid stays connected!

    // But low priority loads are still shed
    let aux = node.relays.iter().find(|r| r.id == "r_aux").unwrap();
    assert_eq!(aux.is_closed, false); // Low priority shed
}

fn three_relay_inventory() -> Vec<Relay> {
    vec![
        relay("grid", "Grid Tie", RelayType::Grid, Priority::Critical, 100),
        relay("hvac", "HVAC", RelayType::Load, Priority::Medium, 20),
        relay("outlets", "Outlets", RelayType::Load, Priority::Low, 10),
    ]
}

fn closed_states(node: &TestNode) -> Vec<bool> {
    node.relays.iter().map(|r| r.is_closed).collect()
}

#[test]
fn test_shed_then_island_adhoc_scenario() {
    let mut node = node_with(three_relay_inventory(), MeshType::AdHoc);

    node.shed_load(Priority::Low);
    assert_eq!(closed_states(&node), vec![true, true, false]);

    node.enter_island_mode();
    assert_eq!(node.state, NodeState::Islanded);
    assert_eq!(closed_states(&node), vec![false, false, false]);
}

#[test]
fn test_island_government_scenario() {
    let mut node = node_with(three_relay_inventory(), MeshType::GovernmentSanctioned);

    node.enter_island_mode();
    assert_eq!(node.state, NodeState::Islanded);
    assert_eq!(closed_states(&node), vec![true, false, false]);
}

#[test]
fn test_shed_medium_takes_medium_and_low_only() {
    let relays = vec![
        relay("med", "Medical", RelayType::Load, Priority::Critical, 15),
        relay("fridge", "Fridge", RelayType::Load, Priority::High, 5),
        relay("hvac", "HVAC", RelayType::Load, Priority::Medium, 20),
        relay("tv", "TV", RelayType::Load, Priority::Low, 2),
        relay("solar", "Solar", RelayType::Source, Priority::Low, 30),
        relay("grid", "Grid Tie", RelayType::Grid, Priority::Low, 100),
    ];
    let mut node = node_with(relays, MeshType::AdHoc);
    node.shed_load(Priority::Medium);
    // Critical and High loads stay; Medium and Low loads open; a source or
    // grid relay is never touched whatever its priority.
    assert_eq!(closed_states(&node), vec![true, true, false, false, true, true]);
}

#[test]
fn test_shed_load_is_idempotent() {
    let mut node = node_with(three_relay_inventory(), MeshType::AdHoc);
    node.shed_load(Priority::Medium);
    let first = closed_states(&node);
    node.shed_load(Priority::Medium);
    assert_eq!(closed_states(&node), first);
    assert_eq!(first, vec![true, false, false]);
}

#[test]
fn test_blackstart_changes_state_only() {
    let mut node = node_with(three_relay_inventory(), MeshType::AdHoc);
    node.enter_island_mode();
    node.enter_blackstart_mode();
    assert_eq!(node.state, NodeState::BlackStart);
    assert_eq!(closed_states(&node), vec![false, false, false]);
}

#[test]
fn test_activate_relays_by_priority_exact_tier() {
    let mut node = node_with(three_relay_inventory(), MeshType::AdHoc);
    node.enter_island_mode();
    node.activate_relays_by_priority(Priority::Medium);
    // Only the medium tier (hvac) is re-admitted.
    assert_eq!(closed_states(&node), vec![false, true, false]);
}

#[test]
fn test_activate_relay_by_index_closes_exactly_one() {
    let mut node = node_with(three_relay_inventory(), MeshType::AdHoc);
    node.enter_island_mode();
    node.activate_relay_by_index(2);
    assert_eq!(closed_states(&node), vec![false, false, true]);
}

#[test]
fn test_activate_relay_by_index_out_of_range_is_noop() {
    let mut node = node_with(three_relay_inventory(), MeshType::AdHoc);
    node.enter_island_mode();
    node.activate_relay_by_index(3);
    node.activate_relay_by_index(1000);
    assert_eq!(closed_states(&node), vec![false, false, false]);
    assert_eq!(node.state, NodeState::Islanded);
}

#[test]
fn test_load_shed_command_other_node_ignored() {
    let mut node = node_with(three_relay_inventory(), MeshType::AdHoc);
    node.handle_command(IncomingCommand::LoadShed(LoadShed {
        target_node_id: "other_node".to_string(),
        shed_load: true,
    }));
    assert_eq!(closed_states(&node), vec![true, true, true]);
    assert_eq!(node.state, NodeState::Normal);
}

#[test]
fn test_load_shed_command_targeted_sheds_medium_tier() {
    let mut node = node_with(three_relay_inventory(), MeshType::AdHoc);
    node.handle_command(IncomingCommand::LoadShed(LoadShed {
        target_node_id: "test_node".to_string(),
        shed_load: true,
    }));
    assert_eq!(closed_states(&node), vec![true, false, false]);
    assert_eq!(node.state, NodeState::Normal);
}

#[test]
fn test_load_restore_command_is_safe_noop() {
    let mut node = node_with(three_relay_inventory(), MeshType::AdHoc);
    node.shed_load(Priority::Low);
    node.handle_command(IncomingCommand::LoadShed(LoadShed {
        target_node_id: "test_node".to_string(),
        shed_load: false,
    }));
    assert_eq!(closed_states(&node), vec![true, true, false]);
}

#[test]
fn test_enter_island_command_targeted() {
    let mut node = node_with(three_relay_inventory(), MeshType::AdHoc);
    node.handle_command(IncomingCommand::EnterIsland(EnterIsland {
        target_node_id: "test_node".to_string(),
    }));
    assert_eq!(node.state, NodeState::Islanded);
    assert_eq!(closed_states(&node), vec![false, false, false]);
}

#[test]
fn test_enter_blackstart_command_targeted() {
    let mut node = node_with(three_relay_inventory(), MeshType::AdHoc);
    node.handle_command(IncomingCommand::EnterIsland(EnterIsland {
        target_node_id: "test_node".to_string(),
    }));
    node.handle_command(IncomingCommand::EnterBlackStart(EnterBlackStart {
        target_node_id: "test_node".to_string(),
    }));
    assert_eq!(node.state, NodeState::BlackStart);
    // No additional shedding or re-engagement.
    assert_eq!(closed_states(&node), vec![false, false, false]);
}

#[test]
fn test_activate_by_priority_command_maps_wire_code() {
    let mut node = node_with(three_relay_inventory(), MeshType::AdHoc);
    node.enter_island_mode();
    node.handle_command(IncomingCommand::ActivateRelayByPriority(ActivateRelayByPriority {
        target_node_id: "test_node".to_string(),
        priority: 2,
    }));
    // Wire code 2 is the medium tier.
    assert_eq!(closed_states(&node), vec![false, true, false]);
}

#[test]
fn test_activate_by_priority_unknown_code_falls_to_low() {
    let mut node = node_with(three_relay_inventory(), MeshType::AdHoc);
    node.enter_island_mode();
    node.handle_command(IncomingCommand::ActivateRelayByPriority(ActivateRelayByPriority {
        target_node_id: "test_node".to_string(),
        priority: 99,
    }));
    // Unrecognized code re-admits only the lowest tier.
    assert_eq!(closed_states(&node), vec![false, false, true]);
}

#[test]
fn test_activate_by_index_command_targeted() {
    let mut node = node_with(three_relay_inventory(), MeshType::AdHoc);
    node.enter_island_mode();
    node.handle_command(IncomingCommand::ActivateRelayByIndex(ActivateRelayByIndex {
        target_node_id: "test_node".to_string(),
        relay_index: 0,
    }));
    assert_eq!(closed_states(&node), vec![true, false, false]);
}

#[test]
fn test_low_voltage_alerts_once_then_holds() {
    let mut node = node_with(three_relay_inventory(), MeshType::AdHoc);
    assert_eq!(node.state, NodeState::Normal);

    // 100.0 V reading, below the 110.0 V threshold: alert fires once.
    assert!(node.check_voltage(Some(1000), 1));
    assert_eq!(node.state, NodeState::AlertSent);
    assert_eq!(node.last_voltage_decivolts, 1000);

    // Sustained low voltage: no further transition, no repeated alert.
    assert!(!node.check_voltage(Some(1005), 2));
    assert_eq!(node.state, NodeState::AlertSent);

    // Relays were never touched by sensing.
    assert_eq!(closed_states(&node), vec![true, true, true]);
}

#[test]
fn test_healthy_voltage_keeps_normal_state() {
    let mut node = node_with(three_relay_inventory(), MeshType::AdHoc);
    assert!(!node.check_voltage(Some(1200), 1));
    assert_eq!(node.state, NodeState::Normal);

    // Threshold is strict: exactly 110.0 V is not "under".
    assert!(!node.check_voltage(Some(1100), 2));
    assert_eq!(node.state, NodeState::Normal);
}

#[test]
fn test_missing_reading_falls_back_to_reference() {
    let mut node = node_with(three_relay_inventory(), MeshType::AdHoc);
    // Reference voltage is 120.0 V, healthy, so no alert fires.
    assert!(!node.check_voltage(None, 1));
    assert_eq!(node.state, NodeState::Normal);
    assert_eq!(node.last_voltage_decivolts, 1200);
}

#[test]
fn test_island_command_reachable_from_alert_sent() {
    let mut node = node_with(three_relay_inventory(), MeshType::AdHoc);
    assert!(node.check_voltage(Some(1000), 1));
    assert_eq!(node.state, NodeState::AlertSent);
    node.handle_command(IncomingCommand::EnterIsland(EnterIsland {
        target_node_id: "test_node".to_string(),
    }));
    assert_eq!(node.state, NodeState::Islanded);
}

#[test]
fn test_node_with_link_and_driver_runs_ticks() {
    let client = OrchestratorClient::new(LoRaCommunication::new(915_000_000));
    let driver = MockRelayDriver::new(&[]).unwrap();
    let relays = three_relay_inventory();
    let mut node: TestNode = EdgeNode::new(
        "test_node",
        relays,
        Vec::new(),
        Some(client),
        Some(driver),
        1200,
        MeshType::AdHoc,
    );
    // The stub transport accepts every send.
    assert!(node.send_feature_report());
    assert!(node.send_heartbeat(42));
    // The stub transport never delivers a command.
    assert!(node.poll_for_command().is_none());
    assert!(node.check_voltage(Some(1000), 43));
    assert_eq!(node.state, NodeState::AlertSent);
    node.enter_island_mode();
    assert_eq!(node.state, NodeState::Islanded);
}
