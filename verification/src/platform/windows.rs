//! The input engine on Windows: relative cursor motion is captured by
//! sampling the cursor, and received input events are turned into the
//! commands that `SendInput` carries out.  Sampling the cursor and calling
//! `SendInput` are the caller's part; this engine decides what to emit and
//! what to send.

use vstd::prelude::*;
use crate::clock::now_us;
use crate::platform::saturating_sum;
use crate::protocol::{KeyEvent, MouseBtn, MouseMove, MouseScroll, Payload};

verus! {

/// How long local capture stays suppressed after an injection, in
/// microseconds.
pub const SUPPRESS_WINDOW_US: u64 = 8_000;

/// One reading of the cursor's position on screen.
#[derive(Debug, Default, Clone, Copy, PartialEq, Eq)]
pub struct CursorSample {
    pub x: i32,
    pub y: i32,
}

pub struct InputEngine {
    suppress_until_us: u64,
    last_pos: Option<CursorSample>,
}

/// The abstract state of an `InputEngine`.
pub ghost struct InputEngineView {
    /// The time, in microseconds since the UNIX epoch, until which local
    /// capture is suppressed.
    pub suppress_until_us: u64,
    /// The last cursor reading, from which the next motion is measured.
    pub last_pos: Option<CursorSample>,
}

impl View for InputEngine {
    type V = InputEngineView;

    closed spec fn view(&self) -> InputEngineView {
        InputEngineView { suppress_until_us: self.suppress_until_us, last_pos: self.last_pos }
    }
}

/// A mouse button transition that `SendInput` can carry out.
#[derive(Debug, Clone, Copy, PartialEq, Eq)]
pub enum MouseButtonAction {
    LeftDown,
    LeftUp,
    RightDown,
    RightUp,
    MiddleDown,
    MiddleUp,
}

/// One call of `SendInput` that an injected event asks for.
#[derive(Debug, Clone, Copy, PartialEq, Eq)]
pub enum InputCommand {
    /// Move the cursor by `dx`, `dy`.
    RelativeMove { dx: i32, dy: i32 },
    /// Press or release a mouse button.
    MouseButton(MouseButtonAction),
    /// Turn the wheel; `mouse_data` is the vertical delta's bits.
    Wheel { mouse_data: u32 },
    /// Press or release the key with virtual-key code `virtual_key`.
    Key { virtual_key: u16, key_up: bool },
}

/// The button transition for button number `button` (1 left, 2 right,
/// 3 middle) going down or up; no other button is known.
pub open spec fn button_action_of(button: u8, is_down: bool) -> Option<MouseButtonAction> {
    if button == 1 {
        Some(if is_down { MouseButtonAction::LeftDown } else { MouseButtonAction::LeftUp })
    } else if button == 2 {
        Some(if is_down { MouseButtonAction::RightDown } else { MouseButtonAction::RightUp })
    } else if button == 3 {
        Some(if is_down { MouseButtonAction::MiddleDown } else { MouseButtonAction::MiddleUp })
    } else {
        None
    }
}

/// The `SendInput` call that injecting `payload` asks for, if any.
pub open spec fn command_of(payload: Payload) -> Option<InputCommand> {
    match payload {
        Payload::MouseMove(m) => Some(InputCommand::RelativeMove { dx: m.dx, dy: m.dy }),
        Payload::MouseBtn(b) => match button_action_of(b.button, b.is_down) {
            Some(a) => Some(InputCommand::MouseButton(a)),
            None => None,
        },
        Payload::MouseScroll(s) => Some(InputCommand::Wheel { mouse_data: s.delta_y as u32 }),
        Payload::Key(k) => Some(InputCommand::Key { virtual_key: k.key_code as u16, key_up: !k.is_down }),
        _ => None,
    }
}

/// Whether the motion from `prev` to `cur` fits the `i32` deltas of a
/// `MouseMove`.
pub open spec fn motion_fits(prev: CursorSample, cur: CursorSample) -> bool {
    &&& i32::MIN <= cur.x - prev.x <= i32::MAX
    &&& i32::MIN <= cur.y - prev.y <= i32::MAX
}

/// Whether a new reading `cursor`, where there is one, moves from the last
/// reading `last`, where there is one, by deltas that fit a `MouseMove`.
pub open spec fn reading_fits(last: Option<CursorSample>, cursor: Option<CursorSample>) -> bool {
    match (last, cursor) {
        (Some(prev), Some(cur)) => motion_fits(prev, cur),
        _ => true,
    }
}

/// The sum of the horizontal deltas of the `MouseMove`s in `out`.
pub open spec fn sum_dx(out: Seq<Payload>) -> int
    decreases out.len(),
{
    if out.len() == 0 {
        0
    } else {
        sum_dx(out.drop_last()) + match out.last() {
            Payload::MouseMove(m) => m.dx as int,
            _ => 0,
        }
    }
}

/// The sum of the vertical deltas of the `MouseMove`s in `out`.
pub open spec fn sum_dy(out: Seq<Payload>) -> int
    decreases out.len(),
{
    if out.len() == 0 {
        0
    } else {
        sum_dy(out.drop_last()) + match out.last() {
            Payload::MouseMove(m) => m.dy as int,
            _ => 0,
        }
    }
}

/// The sum of `sum_dx` over the first `k` outputs.
pub open spec fn total_dx(outs: Seq<Seq<Payload>>, k: int) -> int
    decreases k,
{
    if k <= 0 { 0 } else { total_dx(outs, k - 1) + sum_dx(outs[k - 1]) }
}

/// The sum of `sum_dy` over the first `k` outputs.
pub open spec fn total_dy(outs: Seq<Seq<Payload>>, k: int) -> int
    decreases k,
{
    if k <= 0 { 0 } else { total_dy(outs, k - 1) + sum_dy(outs[k - 1]) }
}

/// What one capture tick emits and leaves behind, from state `pre`, at time
/// `now_us`, with the cursor reading `cursor` (`None` where reading failed).
/// While suppressed, nothing is emitted and the reading is only recorded.
/// Otherwise a successful reading is recorded, and the motion since the
/// previous reading is emitted where there was one and it is not zero.
pub open spec fn capture_step(
    pre: InputEngineView,
    now_us: u64,
    cursor: Option<CursorSample>,
    post: InputEngineView,
    out: Seq<Payload>,
) -> bool {
    &&& post.suppress_until_us == pre.suppress_until_us
    &&& if now_us < pre.suppress_until_us {
        post.last_pos == cursor && out.len() == 0
    } else {
        match cursor {
            None => post == pre && out.len() == 0,
            Some(cur) => {
                &&& post.last_pos == Some(cur)
                &&& out == match pre.last_pos {
                    Some(prev) => if cur.x - prev.x != 0 || cur.y - prev.y != 0 {
                        seq![Payload::MouseMove(MouseMove {
                            dx: (cur.x - prev.x) as i32,
                            dy: (cur.y - prev.y) as i32,
                        })]
                    } else {
                        Seq::empty()
                    },
                    None => Seq::empty(),
                }
            },
        }
    }
}

/// What a capture tick at time `now_us` gives for any reading: as
/// `capture_step` says, except that where, outside suppression, the motion
/// since the last reading does not fit a `MouseMove`, the reading is only
/// recorded and nothing is emitted.
pub open spec fn capture_outcome(
    pre: InputEngineView,
    now_us: u64,
    cursor: Option<CursorSample>,
    post: InputEngineView,
    out: Seq<Payload>,
) -> bool {
    if !(now_us < pre.suppress_until_us) && !reading_fits(pre.last_pos, cursor) {
        &&& post == InputEngineView { last_pos: cursor, ..pre }
        &&& out.len() == 0
    } else {
        capture_step(pre, now_us, cursor, post, out)
    }
}

/// Whether the reading `cursor` moves from `last` by deltas that fit a
/// `MouseMove`, where both readings exist.
fn reading_fits_exec(last: Option<CursorSample>, cursor: Option<CursorSample>) -> (r: bool)
    ensures
        r == reading_fits(last, cursor),
{
    match (last, cursor) {
        (Some(prev), Some(cur)) => {
            let dx = cur.x as i64 - prev.x as i64;
            let dy = cur.y as i64 - prev.y as i64;
            i32::MIN as i64 <= dx && dx <= i32::MAX as i64 && i32::MIN as i64 <= dy && dy <= i32::MAX as i64
        },
        _ => true,
    }
}

/// What injecting `payload` at time `now_us` does: an input event suppresses
/// capture until `SUPPRESS_WINDOW_US` after `now_us` and asks for its
/// `SendInput` call; any other payload changes nothing and asks for none.
pub open spec fn inject_step(
    pre: InputEngineView,
    payload: Payload,
    now_us: u64,
    post: InputEngineView,
    command: Option<InputCommand>,
) -> bool {
    &&& command == command_of(payload)
    &&& post.last_pos == pre.last_pos
    &&& if payload.is_input_event() {
        post.suppress_until_us == saturating_sum(now_us, SUPPRESS_WINDOW_US)
    } else {
        post.suppress_until_us == pre.suppress_until_us
    }
}

/// An injected input event is not captured back: a tick within the
/// suppression window after the injection emits nothing and only records
/// the cursor reading.
pub proof fn lemma_injected_input_not_captured(
    pre: InputEngineView,
    payload: Payload,
    t: u64,
    mid: InputEngineView,
    command: Option<InputCommand>,
    u: u64,
    cursor: Option<CursorSample>,
    post: InputEngineView,
    out: Seq<Payload>,
)
    requires
        payload.is_input_event(),
        inject_step(pre, payload, t, mid, command),
        capture_step(mid, u, cursor, post, out),
        t <= u < t + SUPPRESS_WINDOW_US,
        t + SUPPRESS_WINDOW_US <= u64::MAX,
    ensures
        out.len() == 0,
        post.last_pos == cursor,
{
}

/// Over a run of ticks outside suppression whose readings all succeed, from
/// a last reading `p0` through `readings`, each tick emits at most one
/// `MouseMove`, never a zero one, and the deltas add up to the whole motion
/// from `p0` to the last reading.
pub proof fn lemma_motion_adds_up(
    states: Seq<InputEngineView>,
    nows: Seq<u64>,
    readings: Seq<CursorSample>,
    outs: Seq<Seq<Payload>>,
    p0: CursorSample,
)
    requires
        readings.len() >= 1,
        states.len() == readings.len() + 1,
        nows.len() == readings.len(),
        outs.len() == readings.len(),
        states[0].last_pos == Some(p0),
        forall|i: int|
            0 <= i < readings.len() ==> {
                &&& !(nows[i] < #[trigger] states[i].suppress_until_us)
                &&& reading_fits(states[i].last_pos, Some(readings[i]))
                &&& capture_step(states[i], nows[i], Some(readings[i]), states[i + 1], outs[i])
            },
    ensures
        total_dx(outs, readings.len() as int) == readings.last().x - p0.x,
        total_dy(outs, readings.len() as int) == readings.last().y - p0.y,
        forall|i: int|
            0 <= i < outs.len() ==> #[trigger] outs[i].len() <= 1 && (outs[i].len() == 1 ==> (outs[i][0] matches Payload::MouseMove(m) && (m.dx != 0 || m.dy != 0))),
{
    lemma_motion_prefix(states, nows, readings, outs, p0, readings.len() as int);
    assert forall|i: int| 0 <= i < outs.len() implies #[trigger] outs[i].len() <= 1
        && (outs[i].len() == 1 ==> (outs[i][0] matches Payload::MouseMove(m) && (m.dx != 0 || m.dy != 0))) by {
        assert(!(nows[i] < states[i].suppress_until_us));
    }
}

/// `lemma_motion_adds_up` over the first `k` ticks.
proof fn lemma_motion_prefix(
    states: Seq<InputEngineView>,
    nows: Seq<u64>,
    readings: Seq<CursorSample>,
    outs: Seq<Seq<Payload>>,
    p0: CursorSample,
    k: int,
)
    requires
        1 <= k <= readings.len(),
        states.len() == readings.len() + 1,
        nows.len() == readings.len(),
        outs.len() == readings.len(),
        states[0].last_pos == Some(p0),
        forall|i: int|
            0 <= i < readings.len() ==> {
                &&& !(nows[i] < #[trigger] states[i].suppress_until_us)
                &&& reading_fits(states[i].last_pos, Some(readings[i]))
                &&& capture_step(states[i], nows[i], Some(readings[i]), states[i + 1], outs[i])
            },
    ensures
        total_dx(outs, k) == readings[k - 1].x - p0.x,
        total_dy(outs, k) == readings[k - 1].y - p0.y,
        states[k].last_pos == Some(readings[k - 1]),
    decreases k,
{
    let i = k - 1;
    assert(!(nows[i] < states[i].suppress_until_us));
    let prev = if k == 1 { p0 } else {
        lemma_motion_prefix(states, nows, readings, outs, p0, k - 1);
        readings[k - 2]
    };
    assert(states[i].last_pos == Some(prev));
    let out = outs[i];
    let cur = readings[i];
    assert(motion_fits(prev, cur));
    if cur.x - prev.x != 0 || cur.y - prev.y != 0 {
        assert(out.len() == 1);
        assert(out.drop_last().len() == 0);
        assert(sum_dx(out.drop_last()) == 0);
        assert(sum_dy(out.drop_last()) == 0);
        assert(sum_dx(out) == cur.x - prev.x);
        assert(sum_dy(out) == cur.y - prev.y);
    } else {
        assert(out.len() == 0);
        assert(sum_dx(out) == 0);
        assert(sum_dy(out) == 0);
    }
    assert(total_dx(outs, k) == total_dx(outs, k - 1) + sum_dx(outs[k - 1]));
    assert(total_dy(outs, k) == total_dy(outs, k - 1) + sum_dy(outs[k - 1]));
}

/// Each input event asks for the `SendInput` call that does what it says: a
/// key press presses and a key release releases the key whose code is the
/// event's code cut to 16 bits; a move moves by its deltas; a scroll turns
/// the wheel by its vertical delta's bits; a press or release of button 1, 2
/// or 3 presses or releases the left, right or middle button, and no other
/// button is sent.  Every input event opens the suppression window.
pub proof fn lemma_commands_match_events(pre: InputEngineView, payload: Payload, now: u64, post: InputEngineView, command: Option<InputCommand>)
    requires
        inject_step(pre, payload, now, post, command),
    ensures
        payload matches Payload::Key(k) ==> (command matches Some(InputCommand::Key { virtual_key, key_up })
            && key_up == !k.is_down && virtual_key as int == k.key_code as int % 0x10000),
        payload matches Payload::MouseMove(m) ==> command == Some(InputCommand::RelativeMove { dx: m.dx, dy: m.dy }),
        payload matches Payload::MouseScroll(sc) ==> (command matches Some(InputCommand::Wheel { mouse_data })
            && mouse_data as int == (if sc.delta_y >= 0 { sc.delta_y as int } else { sc.delta_y as int + 0x1_0000_0000 })),
        payload matches Payload::MouseBtn(b) ==> (
            (b.button == 1 && b.is_down ==> command == Some(InputCommand::MouseButton(MouseButtonAction::LeftDown)))
            && (b.button == 1 && !b.is_down ==> command == Some(InputCommand::MouseButton(MouseButtonAction::LeftUp)))
            && (b.button == 2 && b.is_down ==> command == Some(InputCommand::MouseButton(MouseButtonAction::RightDown)))
            && (b.button == 2 && !b.is_down ==> command == Some(InputCommand::MouseButton(MouseButtonAction::RightUp)))
            && (b.button == 3 && b.is_down ==> command == Some(InputCommand::MouseButton(MouseButtonAction::MiddleDown)))
            && (b.button == 3 && !b.is_down ==> command == Some(InputCommand::MouseButton(MouseButtonAction::MiddleUp)))
            && (b.button != 1 && b.button != 2 && b.button != 3 ==> command is None)),
        payload.is_input_event() ==> post.suppress_until_us == saturating_sum(now, SUPPRESS_WINDOW_US),
        !payload.is_input_event() ==> command is None && post == pre,
{
    match payload {
        Payload::Key(k) => {
            let c = k.key_code;
            assert((c as u16) as u32 == c % 0x10000) by (bit_vector);
        },
        Payload::MouseScroll(sc) => {
            let d = sc.delta_y;
            assert(d >= 0 ==> (d as u32) as int == d as int) by (bit_vector);
            assert(d < 0 ==> (d as u32) as int == d as int + 0x1_0000_0000) by (bit_vector);
        },
        _ => {},
    }
}

/// The button transition for button number `button` going down or up.
pub fn mouse_button_action(button: u8, is_down: bool) -> (r: Option<MouseButtonAction>)
    ensures
        r == button_action_of(button, is_down),
{
    match (button, is_down) {
        (1, true) => Some(MouseButtonAction::LeftDown),
        (1, false) => Some(MouseButtonAction::LeftUp),
        (2, true) => Some(MouseButtonAction::RightDown),
        (2, false) => Some(MouseButtonAction::RightUp),
        (3, true) => Some(MouseButtonAction::MiddleDown),
        (3, false) => Some(MouseButtonAction::MiddleUp),
        _ => None,
    }
}

impl Default for InputEngine {
    fn default() -> (r: Self)
        ensures
            r@ == (InputEngineView { suppress_until_us: 0, last_pos: None }),
    {
        InputEngine { suppress_until_us: 0, last_pos: None }
    }
}

impl InputEngine {
    /// An engine with nothing suppressed and no cursor reading yet.
    pub fn new() -> (r: Self)
        ensures
            r@ == (InputEngineView { suppress_until_us: 0, last_pos: None }),
    {
        Self::default()
    }

    /// The last cursor reading, from which the next motion is measured.
    pub fn last_position(&self) -> (r: Option<CursorSample>)
        ensures
            r == self@.last_pos,
    {
        self.last_pos
    }

    /// One capture tick at time `now_us` with the cursor reading `cursor`.
    pub fn capture_tick_at(&mut self, now_us: u64, cursor: Option<CursorSample>) -> (r: Vec<Payload>)
        requires
            !(now_us < old(self)@.suppress_until_us) ==> reading_fits(old(self)@.last_pos, cursor),
        ensures
            capture_step(old(self)@, now_us, cursor, final(self)@, r@),
    {
        let mut output: Vec<Payload> = Vec::new();
        if self.is_suppressed_at(now_us) {
            self.last_pos = cursor;
            return output;
        }
        if let Some(current) = cursor {
            if let Some(prev) = self.last_pos {
                let dx = current.x - prev.x;
                let dy = current.y - prev.y;
                if dx != 0 || dy != 0 {
                    output.push(Payload::MouseMove(MouseMove { dx, dy }));
                }
            }
            self.last_pos = Some(current);
        }
        output
    }

    /// One capture tick now, by the system clock, with the cursor reading
    /// `cursor`.
    /// Where, outside suppression, the motion since the last reading does
    /// not fit a `MouseMove`, the reading is recorded and nothing is
    /// emitted.
    pub fn capture_tick(&mut self, cursor: Option<CursorSample>) -> (r: Vec<Payload>)
        ensures
            exists|now: u64| capture_outcome(old(self)@, now, cursor, final(self)@, r@),
    {
        let ghost pre = self@;
        let now = now_us();
        if !self.is_suppressed_at(now) && !reading_fits_exec(self.last_pos, cursor) {
            self.last_pos = cursor;
            let r: Vec<Payload> = Vec::new();
            assert(capture_outcome(pre, now, cursor, self@, r@));
            return r;
        }
        let r = self.capture_tick_at(now, cursor);
        assert(capture_outcome(pre, now, cursor, self@, r@));
        r
    }

    /// Injects `payload` at time `now_us`, giving the `SendInput` call it
    /// asks for.
    pub fn inject_at(&mut self, payload: &Payload, now_us: u64) -> (r: Option<InputCommand>)
        ensures
            inject_step(old(self)@, *payload, now_us, final(self)@, r),
    {
        match payload {
            Payload::MouseMove(MouseMove { dx, dy }) => {
                self.suppress_until_us = now_us.saturating_add(SUPPRESS_WINDOW_US);
                Some(InputCommand::RelativeMove { dx: *dx, dy: *dy })
            },
            Payload::MouseBtn(MouseBtn { button, is_down }) => {
                self.suppress_until_us = now_us.saturating_add(SUPPRESS_WINDOW_US);
                match mouse_button_action(*button, *is_down) {
                    Some(a) => Some(InputCommand::MouseButton(a)),
                    None => None,
                }
            },
            Payload::MouseScroll(MouseScroll { delta_y, .. }) => {
                self.suppress_until_us = now_us.saturating_add(SUPPRESS_WINDOW_US);
                Some(InputCommand::Wheel { mouse_data: *delta_y as u32 })
            },
            Payload::Key(KeyEvent { key_code, is_down }) => {
                self.suppress_until_us = now_us.saturating_add(SUPPRESS_WINDOW_US);
                Some(InputCommand::Key { virtual_key: *key_code as u16, key_up: !*is_down })
            },
            _ => None,
        }
    }

    /// Injects `payload` now, by the system clock, giving the `SendInput`
    /// call it asks for.
    pub fn inject(&mut self, payload: &Payload) -> (r: Option<InputCommand>)
        ensures
            exists|now: u64| inject_step(old(self)@, *payload, now, final(self)@, r),
    {
        let now = now_us();
        self.inject_at(payload, now)
    }

    /// Whether local capture is suppressed at time `now_us`.
    pub fn is_suppressed_at(&self, now_us: u64) -> (r: bool)
        ensures
            r == (now_us < self@.suppress_until_us),
    {
        now_us < self.suppress_until_us
    }

    /// Whether local capture is suppressed now, by the system clock.
    pub fn is_suppressed(&self) -> (r: bool)
        ensures
            r ==> self@.suppress_until_us > 0,
    {
        self.is_suppressed_at(now_us())
    }
}

} // verus!
