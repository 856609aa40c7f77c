//! The input engine on macOS, where capture and injection are not wired to
//! the operating system yet: injecting only opens a window in which local
//! capture is suppressed, so that injected events are not sent back.

use vstd::prelude::*;
use crate::clock::now_us;
use crate::platform::{InjectError, saturating_sum};
use crate::protocol::Payload;

verus! {

/// How long local capture stays suppressed after an injection, in
/// microseconds.
pub const SUPPRESS_WINDOW_US: u64 = 10_000;

pub struct InputEngine {
    suppress_until_us: u64,
}

impl View for InputEngine {
    /// The time, in microseconds since the UNIX epoch, until which local
    /// capture is suppressed.
    type V = u64;

    closed spec fn view(&self) -> u64 {
        self.suppress_until_us
    }
}

/// After an input event is injected at `t`, capture is suppressed at every
/// time from `t` until the window has passed, and not after.
pub proof fn lemma_inject_suppresses_window(t: u64, u: u64)
    requires
        t + SUPPRESS_WINDOW_US <= u64::MAX,
    ensures
        t <= u < t + SUPPRESS_WINDOW_US ==> u < saturating_sum(t, SUPPRESS_WINDOW_US),
        u >= t + SUPPRESS_WINDOW_US ==> !(u < saturating_sum(t, SUPPRESS_WINDOW_US)),
{
}

impl Default for InputEngine {
    fn default() -> (r: Self)
        ensures
            r@ == 0,
    {
        InputEngine { suppress_until_us: 0 }
    }
}

impl InputEngine {
    /// An engine with nothing suppressed.
    pub fn new() -> (r: Self)
        ensures
            r@ == 0,
    {
        Self::default()
    }

    /// Captures the local input events since the last tick: none, as
    /// capture is not wired on this platform.
    pub fn capture_tick(&mut self) -> (r: Vec<Payload>)
        ensures
            r@.len() == 0,
            final(self)@ == old(self)@,
    {
        Vec::new()
    }

    /// Injects `payload` at time `now_us`: an input event suppresses local
    /// capture until `SUPPRESS_WINDOW_US` after `now_us`; any other payload
    /// is ignored.
    pub fn inject_at(&mut self, payload: &Payload, now_us: u64) -> (r: Result<(), InjectError>)
        ensures
            r is Ok,
            payload.is_input_event() ==> final(self)@ == saturating_sum(now_us, SUPPRESS_WINDOW_US),
            !payload.is_input_event() ==> final(self)@ == old(self)@,
    {
        match payload {
            Payload::MouseMove(_) | Payload::MouseBtn(_) | Payload::MouseScroll(_) | Payload::Key(_) => {
                self.suppress_until_us = now_us.saturating_add(SUPPRESS_WINDOW_US);
                Ok(())
            },
            _ => Ok(()),
        }
    }

    /// Injects `payload` now, by the system clock.
    pub fn inject(&mut self, payload: &Payload) -> (r: Result<(), InjectError>)
        ensures
            r is Ok,
            payload.is_input_event() ==> exists|now: u64|
                final(self)@ == saturating_sum(now, SUPPRESS_WINDOW_US),
            !payload.is_input_event() ==> final(self)@ == old(self)@,
    {
        let now = now_us();
        self.inject_at(payload, now)
    }

    /// Whether local capture is suppressed at time `now_us`.
    pub fn is_suppressed_at(&self, now_us: u64) -> (r: bool)
        ensures
            r == (now_us < self@),
    {
        now_us < self.suppress_until_us
    }

    /// Whether local capture is suppressed now, by the system clock.
    pub fn is_suppressed(&self) -> (r: bool)
        ensures
            r ==> self@ > 0,
    {
        self.is_suppressed_at(now_us())
    }
}

} // verus!
