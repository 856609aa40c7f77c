//! The input engines: what a client captures from, and injects into, the
//! local machine.

pub mod macos;
pub mod windows;

use vstd::prelude::*;

verus! {

/// A failure to hand an input event to the operating system.
#[derive(Debug, Clone, PartialEq, Eq)]
pub enum InjectError {
    /// The operating system refused the event; the text says which kind.
    SendInputFailed(String),
}

/// `a + b`, held at `u64::MAX` where it would exceed it.
pub open spec fn saturating_sum(a: u64, b: u64) -> u64 {
    if a + b > u64::MAX { u64::MAX } else { (a + b) as u64 }
}

} // verus!
