//! Decision logic of an input-sharing mesh: the wire protocol's data model,
//! the broker's session and routing state, and the client's edge switching,
//! clipboard debouncing and input-engine bookkeeping.

pub mod protocol;
pub mod edge;
pub mod clock;
pub mod clipboard;
pub mod platform;
pub mod broker;
pub mod envelope;
pub mod client;
