//! Routing input between the controlling device and its target.

use vstd::prelude::*;
use crate::broker::session::{BrokerState, BrokerView};
use crate::protocol::{Payload, PayloadView, clone_opt_string, opt_string_view};

verus! {

/// The device that a payload is meant for: the named target for
/// `EnterRemote`, the controller for `ExitRemote`, the current target for
/// input events and clipboard text, and nobody for anything else.
pub open spec fn route_target<R>(s: BrokerView<R>, payload: PayloadView) -> Option<Seq<char>> {
    match payload {
        PayloadView::EnterRemote { target_device_id } => Some(target_device_id),
        PayloadView::ExitRemote => s.active_controller,
        PayloadView::MouseMove(_) => s.active_target,
        PayloadView::MouseBtn(_) => s.active_target,
        PayloadView::MouseScroll(_) => s.active_target,
        PayloadView::Key(_) => s.active_target,
        PayloadView::ClipboardText { .. } => s.active_target,
        _ => None,
    }
}

/// The device that a payload is forwarded to: its intended device, where
/// that device has a route.
pub open spec fn forward_to<R>(s: BrokerView<R>, payload: PayloadView) -> Option<Seq<char>> {
    match route_target(s, payload) {
        Some(t) => if s.routes.contains_key(t) { Some(t) } else { None },
        None => None,
    }
}

/// The state after `source` sent `payload`: `EnterRemote` makes `source` the
/// controller and the named device the target, `ExitRemote` clears the
/// target, and nothing else changes anything.
pub open spec fn after_route<R>(s: BrokerView<R>, source: Seq<char>, payload: PayloadView) -> BrokerView<R> {
    match payload {
        PayloadView::EnterRemote { target_device_id } => BrokerView {
            active_controller: Some(source),
            active_target: Some(target_device_id),
            ..s
        },
        PayloadView::ExitRemote => BrokerView { active_target: None, ..s },
        _ => s,
    }
}

/// Once `source` took control of `target`, every input event and every
/// clipboard text goes to `target`, as long as `target` has a route.
pub proof fn lemma_input_follows_enter<R>(s: BrokerView<R>, source: Seq<char>, target: Seq<char>, input: PayloadView)
    requires
        input is MouseMove || input is MouseBtn || input is MouseScroll || input is Key || input is ClipboardText,
    ensures
        ({
            let t = after_route(s, source, PayloadView::EnterRemote { target_device_id: target });
            &&& route_target(t, input) == Some(target)
            &&& forward_to(t, input) == (if s.routes.contains_key(target) { Some(target) } else { None })
        }),
{
}

/// Handing control back goes to the device that took it, and afterwards
/// input events go nowhere, until control is taken again.
pub proof fn lemma_exit_returns_to_controller<R>(
    s: BrokerView<R>,
    source: Seq<char>,
    target: Seq<char>,
    leaver: Seq<char>,
    input: PayloadView,
)
    requires
        input is MouseMove || input is MouseBtn || input is MouseScroll || input is Key || input is ClipboardText,
    ensures
        ({
            let t = after_route(s, source, PayloadView::EnterRemote { target_device_id: target });
            &&& route_target(t, PayloadView::ExitRemote) == Some(source)
            &&& route_target(after_route(t, leaver, PayloadView::ExitRemote), input) is None
            &&& after_route(t, leaver, PayloadView::ExitRemote).active_controller == Some(source)
        }),
{
}

/// Nothing is ever forwarded to a device without a route.
pub proof fn lemma_forward_needs_route<R>(s: BrokerView<R>, payload: PayloadView)
    ensures
        forward_to(s, payload) matches Some(t) ==> s.routes.contains_key(t),
{
}

/// Handles `payload` from device `source_device_id`: gives the device it is
/// to be forwarded to, and records any change of control.
pub fn route_payload<R>(state: &mut BrokerState<R>, source_device_id: &str, payload: &Payload) -> (r: Option<String>)
    ensures
        opt_string_view(r) == forward_to(old(state)@, payload@),
        final(state)@ == after_route(old(state)@, source_device_id@, payload@),
{
    let target: Option<String> = match payload {
        Payload::EnterRemote(data) => Some(data.target_device_id.clone()),
        Payload::ExitRemote(_) => clone_opt_string(&state.active_controller),
        Payload::MouseMove(_) | Payload::MouseBtn(_) | Payload::MouseScroll(_) | Payload::Key(_)
        | Payload::ClipboardText(_) => clone_opt_string(&state.active_target),
        _ => None,
    };
    let forward = match target {
        Some(t) => if state.routes.contains_key(&t) { Some(t) } else { None },
        None => None,
    };
    match payload {
        Payload::EnterRemote(data) => {
            state.active_controller = Some(source_device_id.to_owned());
            state.active_target = Some(data.target_device_id.clone());
        },
        Payload::ExitRemote(_) => {
            state.active_target = None;
        },
        _ => {},
    }
    forward
}

} // verus!
