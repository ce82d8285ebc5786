use streetgrid::comms::EnterIsland;
use streetgrid::comms::Heartbeat;
use streetgrid::comms::IncomingCommand;
use streetgrid::comms::LoRaCommunication;
use streetgrid::comms::LoadShed;
use streetgrid::comms::NeighborhoodMessage;
use streetgrid::comms::OrchestratorClient;
use streetgrid::types::MeshType;
use streetgrid::types::Priority;
use streetgrid::types::RelayType;

#[test]
fn test_command_extracted_from_command_message() {
    let msg = NeighborhoodMessage::LoadShed(LoadShed {
        target_node_id: "n1".to_string(),
        shed_load: true,
    });
    match IncomingCommand::of_message(msg) {
        Some(IncomingCommand::LoadShed(ls)) => {
            assert_eq!(ls.target_node_id, "n1");
            assert!(ls.shed_load);
        }
        _ => panic!("expected a load-shed command"),
    }

    let msg = NeighborhoodMessage::EnterIsland(EnterIsland { target_node_id: "n2".to_string() });
    match IncomingCommand::of_message(msg) {
        Some(IncomingCommand::EnterIsland(ei)) => assert_eq!(ei.target_node_id, "n2"),
        _ => panic!("expected an enter-island command"),
    }
}

#[test]
fn test_telemetry_message_carries_no_command() {
    let msg = NeighborhoodMessage::Heartbeat(Heartbeat {
        node_id: "n1".to_string(),
        timestamp: 7,
        battery_level_percent: 100,
    });
    assert!(IncomingCommand::of_message(msg).is_none());
}

#[test]
fn test_orchestrator_client_over_stub_transport() {
    let layer = LoRaCommunication::new(915_000_000);
    assert_eq!(layer.frequency, 915_000_000);
    let mut client = OrchestratorClient::new(layer);

    // The stub transport accepts every send and never delivers a message.
    client.send_heartbeat(&"n1".to_string(), 7, 100).unwrap();
    client.send_voltage_alert(&"n1".to_string(), 1000, 8).unwrap();
    client.send_feature_report(&"n1".to_string(), Vec::new(), "AdHoc".to_string()).unwrap();
    assert!(client.receive().unwrap().is_none());
}

#[test]
fn test_priority_wire_mapping() {
    assert_eq!(Priority::from_wire(0), Priority::Critical);
    assert_eq!(Priority::from_wire(1), Priority::High);
    assert_eq!(Priority::from_wire(2), Priority::Medium);
    assert_eq!(Priority::from_wire(3), Priority::Low);
    // Unrecognized codes map to the least privileged tier.
    assert_eq!(Priority::from_wire(-1), Priority::Low);
    assert_eq!(Priority::from_wire(99), Priority::Low);
}

#[test]
fn test_wire_codes() {
    assert_eq!(RelayType::Source.wire_code(), 0);
    assert_eq!(RelayType::Load.wire_code(), 1);
    assert_eq!(RelayType::Grid.wire_code(), 2);
    assert_eq!(Priority::Critical.wire_code(), 0);
    assert_eq!(Priority::High.wire_code(), 1);
    assert_eq!(Priority::Medium.wire_code(), 2);
    assert_eq!(Priority::Low.wire_code(), 3);
    assert_eq!(Priority::Critical.rank(), 0);
    assert_eq!(Priority::Low.rank(), 3);
}

#[test]
fn test_mesh_type_default_is_adhoc() {
    assert_eq!(MeshType::default(), MeshType::AdHoc);
}
