use nebula_mesh::client::{
    ClientAction, ClientSession, cursor_position, hello_payload, host_name_from, pair_payload, read_clipboard_text,
    set_clipboard_text, should_exit_remote,
};
use nebula_mesh::edge::{CursorPosition, detect_edge_transition, exit_remote};
use nebula_mesh::protocol::{
    ClipboardText, Edges, EnterRemote, ExitRemote, Hello, KeyEvent, Layout, LayoutDevice, MouseMove, Pair,
    Payload, Ping,
};

fn s(x: &str) -> String {
    x.to_string()
}

fn all_edges() -> Edges {
    Edges { left: Some(s("l")), right: Some(s("r")), top: Some(s("t")), bottom: Some(s("b")) }
}

fn pos(x: i32, y: i32) -> CursorPosition {
    CursorPosition { x, y, width: 1920, height: 1080 }
}

fn enter(target: &str) -> Option<Payload> {
    Some(Payload::EnterRemote(EnterRemote { target_device_id: s(target) }))
}

#[test]
fn left_edge_enters_left_neighbour() {
    assert_eq!(detect_edge_transition(&pos(0, 500), &all_edges(), 2), enter("l"));
    assert_eq!(detect_edge_transition(&pos(2, 500), &all_edges(), 2), enter("l"));
}

#[test]
fn right_top_bottom_edges() {
    assert_eq!(detect_edge_transition(&pos(1918, 500), &all_edges(), 2), enter("r"));
    assert_eq!(detect_edge_transition(&pos(500, 1), &all_edges(), 2), enter("t"));
    assert_eq!(detect_edge_transition(&pos(500, 1078), &all_edges(), 2), enter("b"));
}

#[test]
fn middle_of_screen_enters_nothing() {
    assert_eq!(detect_edge_transition(&pos(3, 500), &all_edges(), 2), None);
    assert_eq!(detect_edge_transition(&pos(1917, 1077), &all_edges(), 2), None);
}

#[test]
fn corner_prefers_left_then_right_then_top() {
    assert_eq!(detect_edge_transition(&pos(0, 0), &all_edges(), 2), enter("l"));
    let no_left = Edges { left: None, ..all_edges() };
    assert_eq!(detect_edge_transition(&pos(0, 0), &no_left, 2), enter("t"));
    let only_bottom = Edges { left: None, right: None, top: None, bottom: Some(s("b")) };
    assert_eq!(detect_edge_transition(&pos(0, 0), &only_bottom, 2), None);
    assert_eq!(detect_edge_transition(&pos(0, 1079), &only_bottom, 2), enter("b"));
}

#[test]
fn edge_without_neighbour_enters_nothing() {
    assert_eq!(detect_edge_transition(&pos(0, 500), &Edges::default(), 2), None);
}

#[test]
fn extreme_values_do_not_overflow() {
    let p = CursorPosition { x: i32::MAX, y: 0, width: i32::MIN, height: 0 };
    assert_eq!(detect_edge_transition(&p, &all_edges(), i32::MAX), enter("l"));
    let p = CursorPosition { x: 100, y: 100, width: i32::MIN, height: 0 };
    assert_eq!(detect_edge_transition(&p, &all_edges(), i32::MIN), enter("r"));
}

#[test]
fn exit_remote_payload() {
    assert_eq!(exit_remote(), Payload::ExitRemote(ExitRemote {}));
}

#[test]
fn session_enters_once_then_exits() {
    let mut session = ClientSession::new(s("gaming-pc"));
    let layout = Layout {
        active_controller: s("gaming-pc"),
        devices: vec![
            LayoutDevice { id: s("other"), edges: Edges { left: Some(s("wrong")), ..Edges::default() } },
            LayoutDevice { id: s("gaming-pc"), edges: Edges { left: Some(s("mac-air")), ..Edges::default() } },
            LayoutDevice { id: s("gaming-pc"), edges: Edges { left: Some(s("later")), ..Edges::default() } },
        ],
    };
    assert!(matches!(session.on_message(Payload::Layout(layout)), ClientAction::Ignore));
    assert_eq!(session.on_tick(&pos(500, 500), false, 2), None);
    assert_eq!(session.on_tick(&pos(0, 500), false, 2), enter("mac-air"));
    assert_eq!(session.on_tick(&pos(0, 500), false, 2), None);
    assert_eq!(session.on_tick(&pos(0, 500), true, 2), Some(Payload::ExitRemote(ExitRemote {})));
    assert_eq!(session.on_tick(&pos(0, 500), false, 2), enter("mac-air"));
}

#[test]
fn layout_without_this_device_keeps_edges() {
    let mut session = ClientSession::new(s("mac-pro"));
    let layout = Layout {
        active_controller: s("gaming-pc"),
        devices: vec![LayoutDevice { id: s("other"), edges: Edges { left: Some(s("x")), ..Edges::default() } }],
    };
    session.on_message(Payload::Layout(layout));
    assert_eq!(session.on_tick(&pos(0, 500), false, 2), None);
}

#[test]
fn messages_are_dispatched() {
    let mut session = ClientSession::new(s("d"));
    let mv = Payload::MouseMove(MouseMove { dx: 3, dy: -4 });
    match session.on_message(mv.clone()) {
        ClientAction::Inject(p) => assert_eq!(p, mv),
        _ => panic!("expected an injection"),
    }
    let key = Payload::Key(KeyEvent { key_code: 65, is_down: true });
    assert!(matches!(session.on_message(key), ClientAction::Inject(_)));
    match session.on_message(Payload::ClipboardText(ClipboardText { text: s("copied") })) {
        ClientAction::SetClipboard(t) => assert_eq!(t, "copied"),
        _ => panic!("expected clipboard text"),
    }
    assert!(matches!(session.on_message(Payload::Ping(Ping {})), ClientAction::Ignore));
}

#[test]
fn hello_and_pair_payloads() {
    let hello = hello_payload(s("mac-air"), s("host"), s("macos"));
    assert_eq!(
        hello,
        Payload::Hello(Hello {
            device_id: s("mac-air"),
            host_name: s("host"),
            os: s("macos"),
            capabilities: vec![s("mouse"), s("keyboard"), s("clipboard-text"), s("edge-switch")],
        })
    );
    assert_eq!(pair_payload(s("123456")), Payload::Pair(Pair { code: s("123456") }));
}

#[test]
fn placeholders() {
    assert_eq!(read_clipboard_text(), "");
    set_clipboard_text("ignored");
    assert_eq!(cursor_position(), CursorPosition { x: 100, y: 100, width: 1920, height: 1080 });
    assert!(!should_exit_remote());
}

#[test]
fn host_name_fallbacks() {
    assert_eq!(host_name_from(Some(s("a")), Some(s("b"))), "a");
    assert_eq!(host_name_from(None, Some(s("b"))), "b");
    assert_eq!(host_name_from(None, None), "unknown-host");
}
