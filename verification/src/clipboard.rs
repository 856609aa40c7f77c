//! Debounced emission of clipboard text.

use vstd::prelude::*;
use crate::clock::{elapsed_nanos, instant_now};
use crate::protocol::{ClipboardText, Payload};
use std::time::Instant;

verus! {

/// Emits the local clipboard text to the mesh when it changes, at most once
/// per debounce interval.
pub struct ClipboardSync {
    last_sent: Option<Instant>,
    debounce_ms: u64,
    last_payload: String,
}

/// The abstract state of a `ClipboardSync`.
pub ghost struct ClipboardSyncView {
    /// The text last emitted, empty before the first emission.
    pub last_payload: Seq<char>,
    /// The least time between two emissions, in milliseconds.
    pub debounce_ms: u64,
    /// When the last emission was made, `None` before the first.
    pub last_sent: Option<Instant>,
}

impl View for ClipboardSync {
    type V = ClipboardSyncView;

    closed spec fn view(&self) -> ClipboardSyncView {
        ClipboardSyncView {
            last_payload: self.last_payload@,
            debounce_ms: self.debounce_ms,
            last_sent: self.last_sent,
        }
    }
}

/// Whether the debounce interval has passed, given the time in nanoseconds
/// since the last emission, `v.last_sent` (`None` where it was not
/// measured).  Before the first emission it has always passed.
pub open spec fn debounce_passed(v: ClipboardSyncView, elapsed_ns: Option<u128>) -> bool {
    v.last_sent is None || (elapsed_ns matches Some(e) && e >= v.debounce_ms * 1_000_000)
}

/// Whether `text` is new: not empty, and not the text last emitted.
pub open spec fn is_new_text(v: ClipboardSyncView, text: Seq<char>) -> bool {
    text.len() > 0 && text != v.last_payload
}

/// The state after `text` was emitted at `now`.
pub open spec fn after_emit(v: ClipboardSyncView, text: Seq<char>, now: Instant) -> ClipboardSyncView {
    ClipboardSyncView { last_payload: text, debounce_ms: v.debounce_ms, last_sent: Some(now) }
}

/// Emissions are debounced: once `first` was emitted at `now`, that
/// emission time is what the next one is measured from; the same text is
/// refused however much time passes, and any other text goes out only once
/// at least the debounce interval has passed since `now`.
pub proof fn lemma_emissions_spaced(
    v: ClipboardSyncView,
    first: Seq<char>,
    now: Instant,
    second: Seq<char>,
    elapsed_since_now: Option<u128>,
)
    requires
        is_new_text(v, first),
    ensures
        ({
            let w = after_emit(v, first, now);
            &&& w.last_sent == Some(now)
            &&& !is_new_text(w, first)
            &&& is_new_text(w, second) && debounce_passed(w, elapsed_since_now) ==> (
                elapsed_since_now matches Some(e) && e >= v.debounce_ms * 1_000_000)
        }),
{
}

/// When a text is emitted: exactly when it is not empty, differs from the
/// text last emitted, and either nothing was emitted yet or the measured
/// time since the last emission is at least the debounce interval.
pub proof fn lemma_emit_condition(v: ClipboardSyncView, text: Seq<char>, elapsed_ns: Option<u128>)
    ensures
        (is_new_text(v, text) && debounce_passed(v, elapsed_ns)) <==> (
            text.len() > 0 && text != v.last_payload && (v.last_sent is None
                || (elapsed_ns is Some && elapsed_ns.unwrap() >= v.debounce_ms * 1_000_000))),
{
}

impl ClipboardSync {
    /// A sync that has emitted nothing yet, with the given debounce interval.
    pub fn new(debounce_ms: u64) -> (r: Self)
        ensures
            r@ == (ClipboardSyncView { last_payload: Seq::empty(), debounce_ms, last_sent: None }),
    {
        ClipboardSync { last_sent: None, debounce_ms, last_payload: String::new() }
    }

    /// Decides on `current_text` given the time since the last emission:
    /// the text is emitted exactly when it is new and the debounce interval
    /// has passed, and `now` is then recorded as the time of the emission.
    pub fn maybe_emit_after(&mut self, current_text: String, elapsed_ns: Option<u128>, now: Instant) -> (r: Option<Payload>)
        ensures
            is_new_text(old(self)@, current_text@) && debounce_passed(old(self)@, elapsed_ns) ==> {
                &&& r == Some(Payload::ClipboardText(ClipboardText { text: current_text }))
                &&& final(self)@ == after_emit(old(self)@, current_text@, now)
            },
            !(is_new_text(old(self)@, current_text@) && debounce_passed(old(self)@, elapsed_ns)) ==> {
                &&& r is None
                &&& *final(self) == *old(self)
            },
    {
        if current_text.as_str().is_empty() || current_text == self.last_payload {
            return None;
        }
        let passed = match (&self.last_sent, elapsed_ns) {
            (None, _) => true,
            (Some(_), Some(e)) => e >= (self.debounce_ms as u128) * 1_000_000,
            (Some(_), None) => false,
        };
        if !passed {
            return None;
        }
        self.last_payload = current_text.clone();
        self.last_sent = Some(now);
        Some(Payload::ClipboardText(ClipboardText { text: current_text }))
    }

    /// Emits `current_text` if it is new and the debounce interval has
    /// passed since the last emission, by the monotonic clock.
    pub fn maybe_emit(&mut self, current_text: String) -> (r: Option<Payload>)
        ensures
            !is_new_text(old(self)@, current_text@) ==> r is None,
            old(self)@.last_sent is None && is_new_text(old(self)@, current_text@) ==> r is Some,
            r is None ==> *final(self) == *old(self),
            r is Some ==> {
                &&& is_new_text(old(self)@, current_text@)
                &&& r == Some(Payload::ClipboardText(ClipboardText { text: current_text }))
                &&& final(self)@.last_sent matches Some(now)
                &&& final(self)@ == after_emit(old(self)@, current_text@, now)
            },
    {
        let elapsed = match &self.last_sent {
            Some(t) => Some(elapsed_nanos(t)),
            None => None,
        };
        let now = instant_now();
        self.maybe_emit_after(current_text, elapsed, now)
    }
}

} // verus!
