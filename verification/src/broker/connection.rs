//! What the broker does with each message on a connection, and when the
//! connection closes.  The caller reads and parses the messages and carries
//! out the actions; the decisions and the state changes are made here.

use vstd::prelude::*;
use crate::broker::pairing::{pairing_session, resolve_pairing_code};
use crate::broker::router::{after_route, forward_to, route_payload};
use crate::broker::session::{BrokerState, BrokerView, Device, DeviceView, default_layout, default_layout_view};
use crate::protocol::{
    Ack, Envelope, EnvelopeView, ErrorMessage, Payload, PayloadView, Pong, opt_string_view,
};
use uuid::Uuid;

verus! {

/// What the caller is to send after a message was handled.
pub enum BrokerAction {
    /// Nothing.
    NoReply,
    /// This envelope, back on the same connection.
    Reply(Envelope),
    /// `reply` back on the same connection, then `broadcast` to every route.
    ReplyAndBroadcast { reply: Envelope, broadcast: Envelope },
    /// The received message, unchanged, to this device's route.
    Forward(String),
}

/// The abstract content of a `BrokerAction`.
pub ghost enum BrokerActionView {
    NoReply,
    Reply(EnvelopeView),
    ReplyAndBroadcast { reply: EnvelopeView, broadcast: EnvelopeView },
    Forward(Seq<char>),
}

impl View for BrokerAction {
    type V = BrokerActionView;

    open spec fn view(&self) -> BrokerActionView {
        match *self {
            BrokerAction::NoReply => BrokerActionView::NoReply,
            BrokerAction::Reply(e) => BrokerActionView::Reply(e@),
            BrokerAction::ReplyAndBroadcast { reply, broadcast } => BrokerActionView::ReplyAndBroadcast {
                reply: reply@,
                broadcast: broadcast@,
            },
            BrokerAction::Forward(t) => BrokerActionView::Forward(t@),
        }
    }
}

/// A reply from the broker to `request`: the request's version, sequence
/// number and timestamp, the broker as origin, and the given session and
/// payload.
pub open spec fn reply_to(request: EnvelopeView, session_id: Option<Uuid>, payload: PayloadView) -> EnvelopeView {
    EnvelopeView {
        protocol_version: request.protocol_version,
        seq: request.seq,
        timestamp_us: request.timestamp_us,
        origin: "broker"@,
        session_id,
        payload,
    }
}

/// The envelope that hands the layout to every device.
pub open spec fn layout_envelope_view() -> EnvelopeView {
    EnvelopeView {
        protocol_version: 1,
        seq: 0,
        timestamp_us: 0,
        origin: "broker"@,
        session_id: None,
        payload: PayloadView::Layout(default_layout_view()),
    }
}

/// The broker's handling of one message `request` on a connection whose
/// device is `conn` (`None` before its hello), with `route` the handle of
/// that connection: the new state, the connection's device, and the action.
///
/// - `Hello` registers the device with this route and no session, and names
///   the connection's device.
/// - `Pair` with a known code on a named connection joins the device to the
///   code's session and is acknowledged, after which the layout goes to
///   everyone; otherwise it is answered with an error.
/// - `Ping` is answered with `Pong` in the same session.
/// - Anything else, on a named connection, is routed.
pub open spec fn message_step<R>(
    s: BrokerView<R>,
    conn: Option<Seq<char>>,
    request: EnvelopeView,
    route: R,
) -> (BrokerView<R>, Option<Seq<char>>, BrokerActionView) {
    match request.payload {
        PayloadView::Hello { device_id, os, .. } => (
            BrokerView {
                routes: s.routes.insert(device_id, route),
                devices: s.devices.insert(device_id, DeviceView { device_id, os, session_id: None }),
                ..s
            },
            Some(device_id),
            BrokerActionView::NoReply,
        ),
        PayloadView::Pair { code } => match (pairing_session(s, code), conn) {
            (Some(session), Some(id)) => (
                BrokerView {
                    devices: if s.devices.contains_key(id) {
                        s.devices.insert(id, DeviceView { session_id: Some(session), ..s.devices[id] })
                    } else {
                        s.devices
                    },
                    ..s
                },
                conn,
                BrokerActionView::ReplyAndBroadcast {
                    reply: reply_to(request, Some(session), PayloadView::Ack { ack_seq: request.seq }),
                    broadcast: layout_envelope_view(),
                },
            ),
            _ => (
                s,
                conn,
                BrokerActionView::Reply(
                    reply_to(request, None, PayloadView::Error { message: "pairing failed"@ }),
                ),
            ),
        },
        PayloadView::Ping => (
            s,
            conn,
            BrokerActionView::Reply(reply_to(request, request.session_id, PayloadView::Pong)),
        ),
        _ => match conn {
            Some(id) => (
                after_route(s, id, request.payload),
                conn,
                match forward_to(s, request.payload) {
                    Some(t) => BrokerActionView::Forward(t),
                    None => BrokerActionView::NoReply,
                },
            ),
            None => (s, conn, BrokerActionView::NoReply),
        },
    }
}

/// The state after the connection of device `conn` closed: the device and
/// its route are gone, and it is neither controller nor target any more.
pub open spec fn disconnect_step<R>(s: BrokerView<R>, conn: Option<Seq<char>>) -> BrokerView<R> {
    match conn {
        Some(id) => BrokerView {
            routes: s.routes.remove(id),
            devices: s.devices.remove(id),
            active_controller: if s.active_controller == Some(id) { None } else { s.active_controller },
            active_target: if s.active_target == Some(id) { None } else { s.active_target },
            ..s
        },
        None => s,
    }
}

/// Every message keeps the registry consistent: the devices that have a
/// route are exactly the registered devices, each filed under its own id.
pub proof fn lemma_message_keeps_registry<R>(
    s: BrokerView<R>,
    conn: Option<Seq<char>>,
    request: EnvelopeView,
    route: R,
)
    requires
        s.registry_consistent(),
    ensures
        message_step(s, conn, request, route).0.registry_consistent(),
{
    let t = message_step(s, conn, request, route).0;
    match request.payload {
        PayloadView::Hello { device_id, os, .. } => {
            assert(t.routes.dom() =~= t.devices.dom());
        },
        PayloadView::Pair { code } => {
            assert(t.routes.dom() =~= t.devices.dom());
        },
        _ => {},
    }
}

/// Closing a connection keeps the registry consistent.
pub proof fn lemma_disconnect_keeps_registry<R>(s: BrokerView<R>, conn: Option<Seq<char>>)
    requires
        s.registry_consistent(),
    ensures
        disconnect_step(s, conn).registry_consistent(),
{
    let t = disconnect_step(s, conn);
    assert(t.routes.dom() =~= t.devices.dom());
}

/// A device that said hello and then paired with a known code on the same
/// connection is in that code's session, and the pairing is acknowledged
/// with the session and the request's sequence number.
pub proof fn lemma_hello_then_pair_joins_session<R>(
    s: BrokerView<R>,
    conn: Option<Seq<char>>,
    hello: EnvelopeView,
    pair: EnvelopeView,
    route: R,
    pair_route: R,
)
    requires
        hello.payload is Hello,
        pair.payload matches PayloadView::Pair { code } && s.pairing_codes.contains_key(code),
    ensures
        ({
            let (s1, c1, a1) = message_step(s, conn, hello, route);
            let (s2, c2, a2) = message_step(s1, c1, pair, pair_route);
            let id = hello.payload->Hello_device_id;
            let session = s.pairing_codes[pair.payload->Pair_code];
            &&& c2 == Some(id)
            &&& s2.devices.contains_key(id)
            &&& s2.devices[id].session_id == Some(session)
            &&& s2.routes.contains_key(id)
            &&& s2.routes[id] == route
            &&& a2 == BrokerActionView::ReplyAndBroadcast {
                reply: reply_to(pair, Some(session), PayloadView::Ack { ack_seq: pair.seq }),
                broadcast: layout_envelope_view(),
            }
        }),
{
}

/// After a device's connection closed, nothing is forwarded to it and it
/// neither controls nor is controlled.
pub proof fn lemma_disconnect_stops_forwarding<R>(s: BrokerView<R>, id: Seq<char>, payload: PayloadView)
    ensures
        ({
            let t = disconnect_step(s, Some(id));
            &&& forward_to(t, payload) != Some(id)
            &&& t.active_controller != Some(id)
            &&& t.active_target != Some(id)
            &&& !t.devices.contains_key(id)
        }),
{
}

/// The envelope that hands the layout to every device.
pub fn layout_envelope() -> (r: Envelope)
    ensures
        r@ == layout_envelope_view(),
{
    Envelope {
        protocol_version: 1,
        seq: 0,
        timestamp_us: 0,
        origin: String::from_str("broker"),
        session_id: None,
        payload: Payload::Layout(default_layout()),
    }
}

/// A reply from the broker to `request` with the given session and payload.
fn reply(request: &Envelope, session_id: Option<Uuid>, payload: Payload) -> (r: Envelope)
    ensures
        r@ == reply_to(request@, session_id, payload@),
{
    Envelope {
        protocol_version: request.protocol_version,
        seq: request.seq,
        timestamp_us: request.timestamp_us,
        origin: String::from_str("broker"),
        session_id,
        payload,
    }
}

/// Whether two optional strings hold the same text.
fn same_id(a: &Option<String>, b: &String) -> (r: bool)
    ensures
        r == (opt_string_view(*a) == Some(b@)),
{
    match a {
        Some(x) => *x == *b,
        None => false,
    }
}

impl<R> BrokerState<R> {
    /// Handles one message `envelope` on the connection whose device is
    /// `*conn_device` and whose route is `route`.
    pub fn handle_message(&mut self, conn_device: &mut Option<String>, envelope: &Envelope, route: R) -> (r: BrokerAction)
        ensures
            (final(self)@, opt_string_view(*final(conn_device)), r@) == message_step(
                old(self)@,
                opt_string_view(*old(conn_device)),
                envelope@,
                route,
            ),
            old(self)@.registry_consistent() ==> final(self)@.registry_consistent(),
    {
        let ghost s0 = self@;
        proof {
            if s0.registry_consistent() {
                lemma_message_keeps_registry(s0, opt_string_view(*conn_device), envelope@, route);
            }
        }
        match &envelope.payload {
            Payload::Hello(hello) => {
                *conn_device = Some(hello.device_id.clone());
                self.routes.insert(hello.device_id.clone(), route);
                self.devices.insert(
                    hello.device_id.clone(),
                    Device { device_id: hello.device_id.clone(), os: hello.os.clone(), session_id: None },
                );
                assert(self@.devices =~= s0.devices.insert(
                    hello.device_id@,
                    DeviceView { device_id: hello.device_id@, os: hello.os@, session_id: None },
                ));
                BrokerAction::NoReply
            },
            Payload::Pair(pair) => {
                let resolved = resolve_pairing_code(self, pair.code.as_str());
                match (resolved, &*conn_device) {
                    (Some(session_id), Some(id)) => {
                        match self.devices.get(id.as_str()) {
                            Some(device) => {
                                let mut updated = device.duplicate();
                                updated.session_id = Some(session_id);
                                self.devices.insert(id.clone(), updated);
                                assert(self@.devices =~= s0.devices.insert(
                                    id@,
                                    DeviceView { session_id: Some(session_id), ..s0.devices[id@] },
                                ));
                            },
                            None => {},
                        }
                        let ack = reply(envelope, Some(session_id), Payload::Ack(Ack { ack_seq: envelope.seq }));
                        BrokerAction::ReplyAndBroadcast { reply: ack, broadcast: layout_envelope() }
                    },
                    _ => {
                        let err = reply(
                            envelope,
                            None,
                            Payload::Error(ErrorMessage { message: String::from_str("pairing failed") }),
                        );
                        BrokerAction::Reply(err)
                    },
                }
            },
            Payload::Ping(_) => {
                BrokerAction::Reply(reply(envelope, envelope.session_id, Payload::Pong(Pong {})))
            },
            _ => {
                match &*conn_device {
                    Some(id) => match route_payload(self, id.as_str(), &envelope.payload) {
                        Some(target) => BrokerAction::Forward(target),
                        None => BrokerAction::NoReply,
                    },
                    None => BrokerAction::NoReply,
                }
            },
        }
    }

    /// Forgets the device of a connection that closed.
    pub fn handle_disconnect(&mut self, conn_device: &Option<String>)
        ensures
            final(self)@ == disconnect_step(old(self)@, opt_string_view(*conn_device)),
            old(self)@.registry_consistent() ==> final(self)@.registry_consistent(),
    {
        let ghost s0 = self@;
        proof {
            if s0.registry_consistent() {
                lemma_disconnect_keeps_registry(s0, opt_string_view(*conn_device));
            }
        }
        if let Some(id) = conn_device {
            self.routes.remove(id);
            self.devices.remove(id.as_str());
            assert(self@.devices =~= s0.devices.remove(id@));
            if same_id(&self.active_controller, id) {
                self.active_controller = None;
            }
            if same_id(&self.active_target, id) {
                self.active_target = None;
            }
        }
    }

    /// The route of device `device_id`, if it has one.
    pub fn route(&self, device_id: &String) -> (r: Option<&R>)
        ensures
            match r {
                Some(v) => self@.routes.contains_key(device_id@) && *v == self@.routes[device_id@],
                None => !self@.routes.contains_key(device_id@),
            },
    {
        self.routes.get(device_id)
    }
}

} // verus!
