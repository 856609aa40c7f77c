use nebula_mesh::broker::connection::{BrokerAction, layout_envelope};
use nebula_mesh::broker::pairing::resolve_pairing_code;
use nebula_mesh::broker::route_table::RouteTable;
use nebula_mesh::broker::router::route_payload;
use nebula_mesh::broker::session::{BrokerState, default_layout, new_state};
use nebula_mesh::protocol::{
    Ack, ClipboardText, Edges, EnterRemote, Envelope, ErrorMessage, ExitRemote, Hello, KeyEvent, Layout,
    LayoutDevice, MouseMove, Pair, Payload, Ping, Pong,
};
use uuid::Uuid;

fn s(x: &str) -> String {
    x.to_string()
}

fn envelope(seq: u64, payload: Payload) -> Envelope {
    Envelope {
        protocol_version: 1,
        seq,
        timestamp_us: 77,
        origin: s("client"),
        session_id: None,
        payload,
    }
}

fn hello(id: &str) -> Envelope {
    envelope(
        1,
        Payload::Hello(Hello { device_id: s(id), host_name: s("h"), os: s("windows"), capabilities: vec![] }),
    )
}

fn state_with_code(code: &str, session: Uuid) -> BrokerState<u32> {
    let mut state: BrokerState<u32> = BrokerState::default();
    state.pairing_codes.insert(s(code), session);
    state
}

#[test]
fn default_layout_describes_the_desk() {
    let layout = default_layout();
    let expected = Layout {
        active_controller: s("gaming-pc"),
        devices: vec![
            LayoutDevice {
                id: s("gaming-pc"),
                edges: Edges {
                    left: Some(s("mac-air")),
                    right: Some(s("mac-pro")),
                    top: None,
                    bottom: Some(s("ideapad")),
                },
            },
            LayoutDevice {
                id: s("ideapad"),
                edges: Edges { left: None, right: None, top: Some(s("gaming-pc")), bottom: None },
            },
            LayoutDevice {
                id: s("mac-air"),
                edges: Edges { left: None, right: Some(s("gaming-pc")), top: None, bottom: None },
            },
            LayoutDevice {
                id: s("mac-pro"),
                edges: Edges { left: Some(s("gaming-pc")), right: None, top: None, bottom: None },
            },
        ],
    };
    assert_eq!(layout, expected);
    let env = layout_envelope();
    assert_eq!(env.protocol_version, 1);
    assert_eq!(env.seq, 0);
    assert_eq!(env.origin, "broker");
    assert_eq!(env.session_id, None);
    assert_eq!(env.payload, Payload::Layout(expected));
}

#[test]
fn fresh_state_accepts_the_static_code() {
    let state: BrokerState<u32> = new_state();
    assert!(resolve_pairing_code(&state, "123456").is_some());
    assert!(resolve_pairing_code(&state, "654321").is_none());
    assert!(state.active_controller.is_none() && state.active_target.is_none());
    let other: BrokerState<u32> = new_state();
    assert_ne!(resolve_pairing_code(&state, "123456"), resolve_pairing_code(&other, "123456"));
}

#[test]
fn hello_then_pair_joins_the_session() {
    let session = Uuid::from_u128(42);
    let mut state = state_with_code("999999", session);
    let mut conn = None;
    assert!(matches!(state.handle_message(&mut conn, &hello("mac-air"), 7), BrokerAction::NoReply));
    assert_eq!(conn, Some(s("mac-air")));
    assert_eq!(state.route(&s("mac-air")), Some(&7));
    assert_eq!(state.devices.get("mac-air").unwrap().session_id, None);
    assert_eq!(state.devices.get("mac-air").unwrap().os, "windows");

    let pair = envelope(5, Payload::Pair(Pair { code: s("999999") }));
    match state.handle_message(&mut conn, &pair, 8) {
        BrokerAction::ReplyAndBroadcast { reply, broadcast } => {
            assert_eq!(
                reply,
                Envelope {
                    protocol_version: 1,
                    seq: 5,
                    timestamp_us: 77,
                    origin: s("broker"),
                    session_id: Some(session),
                    payload: Payload::Ack(Ack { ack_seq: 5 }),
                }
            );
            assert_eq!(broadcast, layout_envelope());
        },
        _ => panic!("expected an acknowledgement and a broadcast"),
    }
    assert_eq!(state.devices.get("mac-air").unwrap().session_id, Some(session));
    // The route is the one given with the hello.
    assert_eq!(state.route(&s("mac-air")), Some(&7));
}

#[test]
fn pairing_fails_on_unknown_code_or_before_hello() {
    let mut state = state_with_code("999999", Uuid::from_u128(1));
    let mut conn = None;
    let expected_error = |seq: u64| Envelope {
        protocol_version: 1,
        seq,
        timestamp_us: 77,
        origin: s("broker"),
        session_id: None,
        payload: Payload::Error(ErrorMessage { message: s("pairing failed") }),
    };
    let pair = envelope(3, Payload::Pair(Pair { code: s("999999") }));
    match state.handle_message(&mut conn, &pair, 0) {
        BrokerAction::Reply(r) => assert_eq!(r, expected_error(3)),
        _ => panic!("expected an error"),
    }
    state.handle_message(&mut conn, &hello("a"), 0);
    let wrong = envelope(4, Payload::Pair(Pair { code: s("000000") }));
    match state.handle_message(&mut conn, &wrong, 0) {
        BrokerAction::Reply(r) => assert_eq!(r, expected_error(4)),
        _ => panic!("expected an error"),
    }
    assert_eq!(state.devices.get("a").unwrap().session_id, None);
}

#[test]
fn ping_is_answered_with_pong() {
    let mut state: BrokerState<u32> = BrokerState::default();
    let mut conn = None;
    let mut ping = envelope(9, Payload::Ping(Ping {}));
    ping.session_id = Some(Uuid::from_u128(5));
    match state.handle_message(&mut conn, &ping, 0) {
        BrokerAction::Reply(r) => assert_eq!(
            r,
            Envelope {
                protocol_version: 1,
                seq: 9,
                timestamp_us: 77,
                origin: s("broker"),
                session_id: Some(Uuid::from_u128(5)),
                payload: Payload::Pong(Pong {}),
            }
        ),
        _ => panic!("expected a pong"),
    }
}

#[test]
fn control_moves_with_enter_and_exit() {
    let mut state: BrokerState<u32> = BrokerState::default();
    let mut pc = None;
    let mut mac = None;
    state.handle_message(&mut pc, &hello("pc"), 1);
    state.handle_message(&mut mac, &hello("mac"), 2);

    let mv = envelope(2, Payload::MouseMove(MouseMove { dx: 1, dy: 2 }));
    assert!(matches!(state.handle_message(&mut pc, &mv, 1), BrokerAction::NoReply));

    let enter = envelope(3, Payload::EnterRemote(EnterRemote { target_device_id: s("mac") }));
    match state.handle_message(&mut pc, &enter, 1) {
        BrokerAction::Forward(t) => assert_eq!(t, "mac"),
        _ => panic!("expected forwarding to the target"),
    }
    assert_eq!(state.active_controller, Some(s("pc")));
    assert_eq!(state.active_target, Some(s("mac")));

    for payload in [
        Payload::MouseMove(MouseMove { dx: 1, dy: 2 }),
        Payload::Key(KeyEvent { key_code: 4, is_down: true }),
        Payload::ClipboardText(ClipboardText { text: s("x") }),
    ] {
        match state.handle_message(&mut pc, &envelope(4, payload), 1) {
            BrokerAction::Forward(t) => assert_eq!(t, "mac"),
            _ => panic!("expected forwarding to the target"),
        }
    }

    let exit = envelope(5, Payload::ExitRemote(ExitRemote {}));
    match state.handle_message(&mut mac, &exit, 2) {
        BrokerAction::Forward(t) => assert_eq!(t, "pc"),
        _ => panic!("expected forwarding to the controller"),
    }
    assert_eq!(state.active_target, None);
    assert_eq!(state.active_controller, Some(s("pc")));
    assert!(matches!(state.handle_message(&mut pc, &mv, 1), BrokerAction::NoReply));
}

#[test]
fn messages_before_hello_are_dropped() {
    let mut state: BrokerState<u32> = BrokerState::default();
    let mut conn = None;
    let enter = envelope(3, Payload::EnterRemote(EnterRemote { target_device_id: s("mac") }));
    assert!(matches!(state.handle_message(&mut conn, &enter, 1), BrokerAction::NoReply));
    assert_eq!(state.active_target, None);
}

#[test]
fn enter_to_unconnected_target_is_recorded_but_not_forwarded() {
    let mut state: BrokerState<u32> = BrokerState::default();
    let p = Payload::EnterRemote(EnterRemote { target_device_id: s("ghost") });
    assert_eq!(route_payload(&mut state, "pc", &p), None);
    assert_eq!(state.active_target, Some(s("ghost")));
    assert_eq!(state.active_controller, Some(s("pc")));
}

#[test]
fn disconnect_forgets_the_device() {
    let mut state: BrokerState<u32> = BrokerState::default();
    let mut pc = None;
    let mut mac = None;
    state.handle_message(&mut pc, &hello("pc"), 1);
    state.handle_message(&mut mac, &hello("mac"), 2);
    let enter = envelope(3, Payload::EnterRemote(EnterRemote { target_device_id: s("mac") }));
    state.handle_message(&mut pc, &enter, 1);
    state.handle_disconnect(&mac);
    assert_eq!(state.route(&s("mac")), None);
    assert!(state.devices.get("mac").is_none());
    assert_eq!(state.active_target, None);
    assert_eq!(state.active_controller, Some(s("pc")));
    let mv = envelope(4, Payload::MouseMove(MouseMove { dx: 1, dy: 1 }));
    assert!(matches!(state.handle_message(&mut pc, &mv, 1), BrokerAction::NoReply));
    state.handle_disconnect(&pc);
    assert_eq!(state.active_controller, None);
    state.handle_disconnect(&None);
    assert_eq!(state.routes.entries().len(), 0);
}

#[test]
fn route_table_replaces_and_removes() {
    let mut table: RouteTable<u32> = RouteTable::new();
    table.insert(s("a"), 1);
    table.insert(s("b"), 2);
    table.insert(s("a"), 3);
    assert_eq!(table.get(&s("a")), Some(&3));
    assert_eq!(table.get(&s("b")), Some(&2));
    assert_eq!(table.entries(), &vec![(s("a"), 3), (s("b"), 2)]);
    assert!(table.contains_key(&s("b")));
    table.remove(&s("a"));
    table.remove(&s("zzz"));
    assert_eq!(table.get(&s("a")), None);
    assert!(!table.contains_key(&s("a")));
    assert_eq!(table.entries(), &vec![(s("b"), 2)]);
}

#[test]
fn default_layout_is_symmetric() {
    let layout = default_layout();
    let find = |id: &Option<String>| id.as_ref().map(|id| layout.devices.iter().find(|d| &d.id == id).unwrap());
    for d in &layout.devices {
        if let Some(n) = find(&d.edges.left) {
            assert_eq!(n.edges.right.as_ref(), Some(&d.id));
        }
        if let Some(n) = find(&d.edges.right) {
            assert_eq!(n.edges.left.as_ref(), Some(&d.id));
        }
        if let Some(n) = find(&d.edges.top) {
            assert_eq!(n.edges.bottom.as_ref(), Some(&d.id));
        }
        if let Some(n) = find(&d.edges.bottom) {
            assert_eq!(n.edges.top.as_ref(), Some(&d.id));
        }
    }
}

#[test]
fn registry_stays_consistent() {
    let mut state: BrokerState<u32> = BrokerState::default();
    let mut a = None;
    let mut b = None;
    state.handle_message(&mut a, &hello("a"), 1);
    state.handle_message(&mut b, &hello("b"), 2);
    // A second hello on the same connection registers a second id.
    state.handle_message(&mut a, &hello("a2"), 3);
    state.handle_disconnect(&a);
    for id in ["a", "b", "a2"] {
        assert_eq!(state.route(&s(id)).is_some(), state.devices.get(id).is_some());
        if let Some(d) = state.devices.get(id) {
            assert_eq!(d.device_id, id);
        }
    }
    assert!(state.devices.get("a").is_some());
    assert!(state.devices.get("a2").is_none());
}
