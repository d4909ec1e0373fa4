use gv_net::components::NetConnectionModel;
use gv_net::net_connection_manager::{
    next_connection_state, ConnectionRegistry, ConnectionState, InboundMessage,
    NetConnectionManagerSystem, TransportEvent, PING_INTERVAL_MS,
};

#[test]
fn disconnect_is_deferred_until_the_whole_batch_is_drained() {
    // All packets of the batch — even those after the disconnect event —
    // reach the inbound queue before the connection is flagged for removal.
    let system = NetConnectionManagerSystem::new();
    let mut connection = NetConnectionModel::new(1, 0, 0);
    let mut incoming: Vec<InboundMessage> = Vec::new();
    let events = vec![
        TransportEvent::Packet {
            decoded: Some(InboundMessage::ActionUpdate { update_id: 1, target_frame: 10, payload: 7 }),
        },
        TransportEvent::Packet {
            decoded: Some(InboundMessage::ActionUpdate { update_id: 2, target_frame: 11, payload: 8 }),
        },
        TransportEvent::Disconnected,
        TransportEvent::Packet {
            decoded: Some(InboundMessage::Pong { ping_id: 4, frame_number: 9 }),
        },
    ];
    let outcome = system.process_connection(&mut connection, &events, 0, &mut incoming);
    assert!(outcome.disconnected);
    assert_eq!(outcome.messages_appended, 3);
    assert_eq!(
        incoming,
        vec![
            InboundMessage::ActionUpdate { update_id: 1, target_frame: 10, payload: 7 },
            InboundMessage::ActionUpdate { update_id: 2, target_frame: 11, payload: 8 },
            InboundMessage::Pong { ping_id: 4, frame_number: 9 },
        ]
    );
    assert_eq!(connection.reader_cursor, 4);
}

#[test]
fn keepalive_pings_are_filtered_from_the_queue() {
    let system = NetConnectionManagerSystem::new();
    let mut connection = NetConnectionModel::new(1, 0, 0);
    let mut incoming: Vec<InboundMessage> = Vec::new();
    let events = vec![
        TransportEvent::Packet { decoded: Some(InboundMessage::Ping) },
        TransportEvent::Packet {
            decoded: Some(InboundMessage::Pong { ping_id: 1, frame_number: 3 }),
        },
        TransportEvent::Packet { decoded: Some(InboundMessage::Ping) },
    ];
    let outcome = system.process_connection(&mut connection, &events, 0, &mut incoming);
    assert_eq!(outcome.messages_appended, 1);
    assert_eq!(incoming, vec![InboundMessage::Pong { ping_id: 1, frame_number: 3 }]);
    assert!(!outcome.disconnected);
}

#[test]
fn malformed_packet_is_discarded_without_affecting_the_connection() {
    let system = NetConnectionManagerSystem::new();
    let mut connection = NetConnectionModel::new(1, 0, 0);
    let mut incoming: Vec<InboundMessage> = Vec::new();
    let events = vec![
        TransportEvent::Packet { decoded: None },
        TransportEvent::Packet {
            decoded: Some(InboundMessage::ActionUpdate { update_id: 1, target_frame: 2, payload: 3 }),
        },
        TransportEvent::Packet { decoded: None },
    ];
    let outcome = system.process_connection(&mut connection, &events, 0, &mut incoming);
    assert_eq!(outcome.messages_appended, 1);
    assert_eq!(incoming.len(), 1);
    assert!(!outcome.disconnected);
    assert_eq!(connection.reader_cursor, 3);
}

#[test]
fn connect_event_is_informational_only() {
    let system = NetConnectionManagerSystem::new();
    let mut connection = NetConnectionModel::new(1, 0, 0);
    let mut incoming: Vec<InboundMessage> = Vec::new();
    let events = vec![TransportEvent::Connected];
    let outcome = system.process_connection(&mut connection, &events, 0, &mut incoming);
    assert_eq!(outcome.messages_appended, 0);
    assert!(incoming.is_empty());
    assert!(!outcome.disconnected);
}

#[test]
fn lifecycle_activates_on_first_event_and_drop_is_terminal() {
    let no_events: Vec<TransportEvent> = Vec::new();
    let packet = vec![TransportEvent::Packet { decoded: Some(InboundMessage::Ping) }];
    let disconnect = vec![TransportEvent::Connected, TransportEvent::Disconnected];

    // An unseen peer stays unknown until any event is observed for it.
    assert_eq!(next_connection_state(ConnectionState::Unknown, &no_events), ConnectionState::Unknown);
    assert_eq!(next_connection_state(ConnectionState::Unknown, &packet), ConnectionState::Active);

    // A disconnect drops the connection the tick it is observed.
    assert_eq!(next_connection_state(ConnectionState::Active, &packet), ConnectionState::Active);
    assert_eq!(next_connection_state(ConnectionState::Active, &disconnect), ConnectionState::Dropped);

    // Dropped is terminal: no batch revives the connection.
    assert_eq!(next_connection_state(ConnectionState::Dropped, &packet), ConnectionState::Dropped);
    assert_eq!(next_connection_state(ConnectionState::Dropped, &no_events), ConnectionState::Dropped);
}

#[test]
fn registry_keeps_exactly_one_record_per_peer() {
    let mut registry = ConnectionRegistry::new();
    assert!(registry.ensure_record(1, 0, 100));
    // A second creation for the same peer is a no-op: no duplicate record.
    assert!(!registry.ensure_record(1, 5, 900));
    assert_eq!(registry.len(), 1);
    assert!(registry.ensure_record(2, 0, 100));
    assert_eq!(registry.len(), 2);

    let taken = registry.take_record(1).unwrap();
    assert_eq!(taken.id, 1);
    assert_eq!(taken.created_at_ms, 100);
    assert!(!registry.contains(1));
    assert!(registry.contains(2));
    // No orphan remains: a second take finds nothing.
    assert!(registry.take_record(1).is_none());

    registry.put_record(taken);
    assert!(registry.contains(1));
    assert_eq!(registry.len(), 2);
}

#[test]
fn keepalive_is_sent_exactly_when_the_interval_elapsed() {
    let system = NetConnectionManagerSystem::new();
    let mut connection = NetConnectionModel::new(1, 0, 0);
    let mut incoming: Vec<InboundMessage> = Vec::new();
    let events: Vec<TransportEvent> = Vec::new();

    let outcome = system.process_connection(&mut connection, &events, PING_INTERVAL_MS, &mut incoming);
    assert!(!outcome.send_ping);
    assert_eq!(connection.last_pinged_at_ms, 0);

    let outcome = system.process_connection(&mut connection, &events, PING_INTERVAL_MS + 1, &mut incoming);
    assert!(outcome.send_ping);
    assert_eq!(connection.last_pinged_at_ms, PING_INTERVAL_MS + 1);

    // The timer was reset, so the same instant does not ping again.
    let outcome = system.process_connection(&mut connection, &events, PING_INTERVAL_MS + 1, &mut incoming);
    assert!(!outcome.send_ping);
}
