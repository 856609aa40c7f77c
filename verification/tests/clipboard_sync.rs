use nebula_mesh::clipboard::ClipboardSync;
use std::time::Instant;
use nebula_mesh::protocol::{ClipboardText, Payload};

fn text(t: &str) -> Option<Payload> {
    Some(Payload::ClipboardText(ClipboardText { text: t.to_string() }))
}

#[test]
fn first_text_is_emitted_at_once() {
    let mut sync = ClipboardSync::new(250);
    assert_eq!(sync.maybe_emit("hello".to_string()), text("hello"));
}

#[test]
fn empty_text_is_never_emitted() {
    let mut sync = ClipboardSync::new(0);
    assert_eq!(sync.maybe_emit(String::new()), None);
    assert_eq!(sync.maybe_emit_after(String::new(), Some(u128::MAX), Instant::now()), None);
}

#[test]
fn same_text_is_not_emitted_twice() {
    let mut sync = ClipboardSync::new(0);
    assert_eq!(sync.maybe_emit("a".to_string()), text("a"));
    assert_eq!(sync.maybe_emit("a".to_string()), None);
    assert_eq!(sync.maybe_emit_after("a".to_string(), Some(1_000_000_000), Instant::now()), None);
}

#[test]
fn debounce_holds_back_new_text() {
    let mut sync = ClipboardSync::new(250);
    assert_eq!(sync.maybe_emit_after("a".to_string(), None, Instant::now()), text("a"));
    // 249.999999 ms after: too early.
    assert_eq!(sync.maybe_emit_after("b".to_string(), Some(249_999_999), Instant::now()), None);
    // Not measured: too early.
    assert_eq!(sync.maybe_emit_after("b".to_string(), None, Instant::now()), None);
    // Exactly 250 ms after: emitted.
    assert_eq!(sync.maybe_emit_after("b".to_string(), Some(250_000_000), Instant::now()), text("b"));
    assert_eq!(sync.maybe_emit_after("b".to_string(), Some(900_000_000), Instant::now()), None);
}

#[test]
fn debounce_by_the_clock() {
    let mut sync = ClipboardSync::new(60_000);
    assert_eq!(sync.maybe_emit("a".to_string()), text("a"));
    assert_eq!(sync.maybe_emit("b".to_string()), None);
    let mut quick = ClipboardSync::new(0);
    assert_eq!(quick.maybe_emit("a".to_string()), text("a"));
    assert_eq!(quick.maybe_emit("b".to_string()), text("b"));
}

#[test]
fn emissions_are_spaced_from_the_last_emission() {
    let mut sync = ClipboardSync::new(100);
    let t0 = Instant::now();
    assert_eq!(sync.maybe_emit_after("a".to_string(), None, t0), text("a"));
    assert_eq!(sync.maybe_emit_after("b".to_string(), Some(100_000_000), t0), text("b"));
    // Measured from the emission of "b", 50 ms is too early.
    assert_eq!(sync.maybe_emit_after("c".to_string(), Some(50_000_000), t0), None);
    assert_eq!(sync.maybe_emit_after("c".to_string(), Some(100_000_000), t0), text("c"));
}
