//! What the broker's steps do, stated directly over their inputs and
//! results.

use vstd::prelude::*;
use crate::broker::connection::{BrokerActionView, disconnect_step, message_step};
use crate::broker::router::{after_route, forward_to};
use crate::broker::session::default_layout_view;
use crate::broker::session::{BrokerView, DeviceView};
use crate::protocol::{EnvelopeView, PayloadView};

verus! {

/// Every ping is answered, on any connection and whether or not it carries
/// a session: the answer is a pong from the broker with the ping's version,
/// sequence number, timestamp and session, and nothing else changes.
pub proof fn lemma_every_ping_is_answered<R>(s: BrokerView<R>, conn: Option<Seq<char>>, request: EnvelopeView, route: R)
    requires
        request.payload == PayloadView::Ping,
    ensures
        message_step(s, conn, request, route) == (
            s,
            conn,
            BrokerActionView::Reply(EnvelopeView {
                protocol_version: request.protocol_version,
                seq: request.seq,
                timestamp_us: request.timestamp_us,
                origin: "broker"@,
                session_id: request.session_id,
                payload: PayloadView::Pong,
            }),
        ),
{
}

/// A hello registers its device under its own id, with this connection's
/// route, its operating system and no session, names the connection, and
/// is not answered; every other device, route, code and role stays.
pub proof fn lemma_hello_registers<R>(s: BrokerView<R>, conn: Option<Seq<char>>, request: EnvelopeView, route: R)
    requires
        request.payload is Hello,
    ensures
        ({
            let (t, c, a) = message_step(s, conn, request, route);
            let id = request.payload->Hello_device_id;
            &&& c == Some(id)
            &&& a == BrokerActionView::NoReply
            &&& t.routes.contains_key(id) && t.routes[id] == route
            &&& t.devices.contains_key(id)
            &&& t.devices[id] == (DeviceView { device_id: id, os: request.payload->Hello_os, session_id: None })
            &&& forall|k: Seq<char>| k != id ==> (#[trigger] t.routes.contains_key(k) == s.routes.contains_key(k)
                && (s.routes.contains_key(k) ==> t.routes[k] == s.routes[k]))
            &&& forall|k: Seq<char>| k != id ==> (#[trigger] t.devices.contains_key(k) == s.devices.contains_key(k)
                && (s.devices.contains_key(k) ==> t.devices[k] == s.devices[k]))
            &&& t.pairing_codes == s.pairing_codes
            &&& t.active_controller == s.active_controller
            &&& t.active_target == s.active_target
        }),
{
}

/// A pairing request with an unknown code, or before the connection said
/// hello, is answered with "pairing failed" (no session, the request's
/// version, sequence number and timestamp) and changes nothing.
pub proof fn lemma_failed_pairing<R>(s: BrokerView<R>, conn: Option<Seq<char>>, request: EnvelopeView, route: R)
    requires
        request.payload matches PayloadView::Pair { code } && (!s.pairing_codes.contains_key(code) || conn is None),
    ensures
        message_step(s, conn, request, route) == (
            s,
            conn,
            BrokerActionView::Reply(EnvelopeView {
                protocol_version: request.protocol_version,
                seq: request.seq,
                timestamp_us: request.timestamp_us,
                origin: "broker"@,
                session_id: None,
                payload: PayloadView::Error { message: "pairing failed"@ },
            }),
        ),
{
}

/// A pairing request with a known code on a connection that said hello
/// joins that device, if registered, to the code's session and changes
/// nothing else; it is acknowledged with the session and the request's
/// sequence number, and the layout goes to everyone.
pub proof fn lemma_successful_pairing<R>(s: BrokerView<R>, id: Seq<char>, request: EnvelopeView, route: R)
    requires
        request.payload matches PayloadView::Pair { code } && s.pairing_codes.contains_key(code),
    ensures
        ({
            let session = s.pairing_codes[request.payload->Pair_code];
            let (t, c, a) = message_step(s, Some(id), request, route);
            &&& c == Some(id)
            &&& a == BrokerActionView::ReplyAndBroadcast {
                reply: EnvelopeView {
                    protocol_version: request.protocol_version,
                    seq: request.seq,
                    timestamp_us: request.timestamp_us,
                    origin: "broker"@,
                    session_id: Some(session),
                    payload: PayloadView::Ack { ack_seq: request.seq },
                },
                broadcast: EnvelopeView {
                    protocol_version: 1,
                    seq: 0,
                    timestamp_us: 0,
                    origin: "broker"@,
                    session_id: None,
                    payload: PayloadView::Layout(default_layout_view()),
                },
            }
            &&& s.devices.contains_key(id) ==> t.devices == s.devices.insert(id, DeviceView {
                device_id: s.devices[id].device_id,
                os: s.devices[id].os,
                session_id: Some(session),
            })
            &&& !s.devices.contains_key(id) ==> t.devices == s.devices
            &&& t.routes == s.routes
            &&& t.pairing_codes == s.pairing_codes
            &&& t.active_controller == s.active_controller
            &&& t.active_target == s.active_target
        }),
{
}

/// Where each payload goes: a request for control to the device it names,
/// a hand-back to the controller, input events and clipboard text to the
/// target, each only where that device has a route; nothing else is
/// forwarded.
pub proof fn lemma_forward_destinations<R>(s: BrokerView<R>, payload: PayloadView)
    ensures
        payload matches PayloadView::EnterRemote { target_device_id } ==> forward_to(s, payload)
            == (if s.routes.contains_key(target_device_id) { Some(target_device_id) } else { None }),
        payload is ExitRemote ==> forward_to(s, payload) == (match s.active_controller {
            Some(c) => if s.routes.contains_key(c) { Some(c) } else { None },
            None => None,
        }),
        (payload is MouseMove || payload is MouseBtn || payload is MouseScroll || payload is Key
            || payload is ClipboardText) ==> forward_to(s, payload) == (match s.active_target {
            Some(t) => if s.routes.contains_key(t) { Some(t) } else { None },
            None => None,
        }),
        (payload is Hello || payload is Pair || payload is Layout || payload is Ping || payload is Pong
            || payload is Ack || payload is Error) ==> forward_to(s, payload) is None,
{
}

/// Only taking and handing back control change who controls whom: any
/// other payload leaves the controller, the target and everything else as
/// they were.
pub proof fn lemma_routing_keeps_roles<R>(s: BrokerView<R>, source: Seq<char>, payload: PayloadView)
    requires
        !(payload is EnterRemote),
        !(payload is ExitRemote),
    ensures
        after_route(s, source, payload) == s,
{
}

/// Taking control of `target` makes the sender the controller and `target`
/// the target; handing it back clears the target and keeps the controller.
/// Neither changes the registry or the codes.
pub proof fn lemma_control_changes<R>(s: BrokerView<R>, source: Seq<char>, target: Seq<char>)
    ensures
        ({
            let t = after_route(s, source, PayloadView::EnterRemote { target_device_id: target });
            let u = after_route(s, source, PayloadView::ExitRemote);
            &&& t.active_controller == Some(source) && t.active_target == Some(target)
            &&& t.routes == s.routes && t.devices == s.devices && t.pairing_codes == s.pairing_codes
            &&& u.active_controller == s.active_controller && u.active_target is None
            &&& u.routes == s.routes && u.devices == s.devices && u.pairing_codes == s.pairing_codes
        }),
{
}

/// Once `target` has control handed to it, any run of input events and
/// clipboard texts, from anyone, keeps it the target, and each of them is
/// forwarded to it exactly when it has a route.
pub proof fn lemma_inputs_follow_target<R>(
    s: BrokerView<R>,
    source: Seq<char>,
    target: Seq<char>,
    senders: Seq<Seq<char>>,
    inputs: Seq<PayloadView>,
    k: int,
)
    requires
        senders.len() == inputs.len(),
        0 <= k <= inputs.len(),
        forall|i: int| 0 <= i < inputs.len() ==> {
            let p = #[trigger] inputs[i];
            p is MouseMove || p is MouseBtn || p is MouseScroll || p is Key || p is ClipboardText
        },
    ensures
        ({
            let t = routed_run(after_route(s, source, PayloadView::EnterRemote { target_device_id: target }), senders, inputs, k);
            &&& t.active_target == Some(target)
            &&& t.active_controller == Some(source)
            &&& t.routes == s.routes
            &&& forall|p: PayloadView| (p is MouseMove || p is MouseBtn || p is MouseScroll || p is Key || p is ClipboardText)
                ==> #[trigger] forward_to(t, p) == (if s.routes.contains_key(target) { Some(target) } else { None })
        }),
    decreases k,
{
    if k > 0 {
        lemma_inputs_follow_target(s, source, target, senders, inputs, k - 1);
    }
}

/// The state after the first `k` payloads of `inputs`, from `senders`, were
/// routed from state `s`.
pub open spec fn routed_run<R>(s: BrokerView<R>, senders: Seq<Seq<char>>, inputs: Seq<PayloadView>, k: int) -> BrokerView<R>
    decreases k,
{
    if k <= 0 {
        s
    } else {
        after_route(routed_run(s, senders, inputs, k - 1), senders[k - 1], inputs[k - 1])
    }
}

/// Closing the connection of `id` forgets exactly `id`: every other device
/// and route stays, and the controller and the target stay unless they were
/// `id`, in which case they are cleared.
pub proof fn lemma_disconnect_forgets_only_id<R>(s: BrokerView<R>, id: Seq<char>)
    ensures
        ({
            let t = disconnect_step(s, Some(id));
            &&& !t.routes.contains_key(id) && !t.devices.contains_key(id)
            &&& forall|k: Seq<char>| k != id ==> (#[trigger] t.routes.contains_key(k) == s.routes.contains_key(k)
                && (s.routes.contains_key(k) ==> t.routes[k] == s.routes[k]))
            &&& forall|k: Seq<char>| k != id ==> (#[trigger] t.devices.contains_key(k) == s.devices.contains_key(k)
                && (s.devices.contains_key(k) ==> t.devices[k] == s.devices[k]))
            &&& s.active_target == Some(id) ==> t.active_target is None
            &&& forall|other: Seq<char>| other != id && s.active_target == Some(other) ==> t.active_target == Some(other)
            &&& s.active_target is None ==> t.active_target is None
            &&& s.active_controller == Some(id) ==> t.active_controller is None
            &&& forall|other: Seq<char>| other != id && s.active_controller == Some(other) ==> t.active_controller == Some(other)
            &&& s.active_controller is None ==> t.active_controller is None
            &&& t.pairing_codes == s.pairing_codes
        }),
{
}

/// A closed connection that never said hello changes nothing.
pub proof fn lemma_anonymous_disconnect<R>(s: BrokerView<R>)
    ensures
        disconnect_step(s, None) == s,
{
}

} // verus!
