//! Resolving pairing codes to sessions.

use vstd::prelude::*;
use crate::broker::session::BrokerState;
use uuid::Uuid;

verus! {

/// The session that pairing `code` opens, if the code is known.
pub open spec fn pairing_session<R>(state: crate::broker::session::BrokerView<R>, code: Seq<char>) -> Option<Uuid> {
    if state.pairing_codes.contains_key(code) {
        Some(state.pairing_codes[code])
    } else {
        None
    }
}

/// Looks up the session that pairing `code` opens.
pub fn resolve_pairing_code<R>(state: &BrokerState<R>, code: &str) -> (r: Option<Uuid>)
    ensures
        r == pairing_session(state@, code@),
{
    match state.pairing_codes.get(code) {
        Some(session) => Some(*session),
        None => None,
    }
}

} // verus!
