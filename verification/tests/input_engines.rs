use nebula_mesh::clock::{micros_to_timestamp, now_us};
use nebula_mesh::platform::{macos, windows};
use nebula_mesh::platform::windows::{CursorSample, InputCommand, MouseButtonAction, mouse_button_action};
use nebula_mesh::protocol::{KeyEvent, MouseBtn, MouseMove, MouseScroll, Payload, Ping};

#[test]
fn clock_conversion() {
    assert_eq!(micros_to_timestamp(None), 0);
    assert_eq!(micros_to_timestamp(Some(1_700_000_000_000_000)), 1_700_000_000_000_000);
    assert_eq!(micros_to_timestamp(Some((1u128 << 64) + 5)), 5);
    assert!(now_us() > 1_600_000_000_000_000);
}

#[test]
fn macos_inject_opens_suppression_window() {
    let mut engine = macos::InputEngine::new();
    assert!(!engine.is_suppressed_at(0));
    assert!(engine.capture_tick().is_empty());
    assert!(engine.inject_at(&Payload::Ping(Ping {}), 1_000).is_ok());
    assert!(!engine.is_suppressed_at(1_000));
    assert!(engine.inject_at(&Payload::MouseMove(MouseMove { dx: 1, dy: 1 }), 1_000).is_ok());
    assert!(engine.is_suppressed_at(1_000));
    assert!(engine.is_suppressed_at(10_999));
    assert!(!engine.is_suppressed_at(11_000));
    assert!(engine.inject_at(&Payload::Key(KeyEvent { key_code: 1, is_down: true }), u64::MAX - 5).is_ok());
    assert!(engine.is_suppressed_at(u64::MAX - 1));
}

#[test]
fn macos_inject_by_the_clock() {
    let mut engine = macos::InputEngine::new();
    assert!(!engine.is_suppressed());
    let before = now_us();
    assert!(engine.inject(&Payload::MouseBtn(MouseBtn { button: 1, is_down: true })).is_ok());
    assert!(engine.is_suppressed_at(before));
    assert!(engine.is_suppressed_at(before + 9_999));
}

#[test]
fn windows_capture_reports_motion() {
    let mut engine = windows::InputEngine::new();
    assert!(engine.capture_tick_at(100, Some(CursorSample { x: 10, y: 10 })).is_empty());
    assert_eq!(
        engine.capture_tick_at(200, Some(CursorSample { x: 15, y: 7 })),
        vec![Payload::MouseMove(MouseMove { dx: 5, dy: -3 })]
    );
    assert!(engine.capture_tick_at(300, Some(CursorSample { x: 15, y: 7 })).is_empty());
    // A failed reading keeps the previous one.
    assert!(engine.capture_tick_at(400, None).is_empty());
    assert_eq!(
        engine.capture_tick_at(500, Some(CursorSample { x: 14, y: 7 })),
        vec![Payload::MouseMove(MouseMove { dx: -1, dy: 0 })]
    );
}

#[test]
fn windows_injected_motion_is_not_captured_back() {
    let mut engine = windows::InputEngine::new();
    engine.capture_tick_at(0, Some(CursorSample { x: 0, y: 0 }));
    let cmd = engine.inject_at(&Payload::MouseMove(MouseMove { dx: 30, dy: 40 }), 1_000);
    assert_eq!(cmd, Some(InputCommand::RelativeMove { dx: 30, dy: 40 }));
    assert!(engine.is_suppressed_at(8_999));
    assert!(engine.capture_tick_at(2_000, Some(CursorSample { x: 30, y: 40 })).is_empty());
    // After the window, motion is measured from the reading taken while suppressed.
    assert_eq!(
        engine.capture_tick_at(9_000, Some(CursorSample { x: 31, y: 40 })),
        vec![Payload::MouseMove(MouseMove { dx: 1, dy: 0 })]
    );
}

#[test]
fn windows_commands() {
    let mut engine = windows::InputEngine::new();
    assert_eq!(
        engine.inject_at(&Payload::MouseBtn(MouseBtn { button: 2, is_down: false }), 0),
        Some(InputCommand::MouseButton(MouseButtonAction::RightUp))
    );
    assert_eq!(engine.inject_at(&Payload::MouseBtn(MouseBtn { button: 9, is_down: true }), 0), None);
    assert!(engine.is_suppressed_at(7_999));
    assert_eq!(
        engine.inject_at(&Payload::MouseScroll(MouseScroll { delta_x: 5, delta_y: -120 }), 0),
        Some(InputCommand::Wheel { mouse_data: (-120i32) as u32 })
    );
    assert_eq!(
        engine.inject_at(&Payload::Key(KeyEvent { key_code: 0x1_0041, is_down: false }), 0),
        Some(InputCommand::Key { virtual_key: 0x41, key_up: true })
    );
    assert_eq!(engine.inject_at(&Payload::Ping(Ping {}), 0), None);
}

#[test]
fn mouse_buttons() {
    assert_eq!(mouse_button_action(1, true), Some(MouseButtonAction::LeftDown));
    assert_eq!(mouse_button_action(1, false), Some(MouseButtonAction::LeftUp));
    assert_eq!(mouse_button_action(2, true), Some(MouseButtonAction::RightDown));
    assert_eq!(mouse_button_action(3, true), Some(MouseButtonAction::MiddleDown));
    assert_eq!(mouse_button_action(3, false), Some(MouseButtonAction::MiddleUp));
    assert_eq!(mouse_button_action(0, true), None);
}

#[test]
fn windows_capture_by_the_clock() {
    let mut engine = windows::InputEngine::new();
    assert!(engine.capture_tick(Some(CursorSample { x: 1, y: 1 })).is_empty());
    assert_eq!(
        engine.capture_tick(Some(CursorSample { x: 2, y: 1 })),
        vec![Payload::MouseMove(MouseMove { dx: 1, dy: 0 })]
    );
    let before = now_us();
    assert_eq!(
        engine.inject(&Payload::MouseMove(MouseMove { dx: 1, dy: 1 })),
        Some(InputCommand::RelativeMove { dx: 1, dy: 1 })
    );
    assert!(engine.is_suppressed_at(before + 7_999));
}

#[test]
fn windows_failed_first_reading_emits_nothing() {
    let mut engine = windows::InputEngine::new();
    assert!(engine.capture_tick_at(5, None).is_empty());
    assert_eq!(engine.last_position(), None);
    assert!(engine.capture_tick(None).is_empty());
}

#[test]
fn windows_motion_over_a_run_adds_up() {
    let mut engine = windows::InputEngine::new();
    engine.capture_tick_at(0, Some(CursorSample { x: 100, y: 100 }));
    let readings = [(103, 100), (103, 100), (90, 120), (91, 119)];
    let (mut sx, mut sy) = (0, 0);
    for (t, (x, y)) in readings.iter().enumerate() {
        let out = engine.capture_tick_at(t as u64 + 1, Some(CursorSample { x: *x, y: *y }));
        assert!(out.len() <= 1);
        for p in out {
            match p {
                Payload::MouseMove(m) => {
                    assert!(m.dx != 0 || m.dy != 0);
                    sx += m.dx;
                    sy += m.dy;
                }
                _ => panic!("expected motion"),
            }
        }
    }
    assert_eq!((sx, sy), (91 - 100, 119 - 100));
}

#[test]
fn windows_unfitting_motion_is_recorded_without_emitting() {
    let mut engine = windows::InputEngine::new();
    assert!(engine.capture_tick(Some(CursorSample { x: i32::MIN, y: 0 })).is_empty());
    assert!(engine.capture_tick(Some(CursorSample { x: i32::MAX, y: 0 })).is_empty());
    assert_eq!(engine.last_position(), Some(CursorSample { x: i32::MAX, y: 0 }));
    assert_eq!(
        engine.capture_tick(Some(CursorSample { x: i32::MAX - 2, y: 1 })),
        vec![Payload::MouseMove(MouseMove { dx: -2, dy: 1 })]
    );
}
