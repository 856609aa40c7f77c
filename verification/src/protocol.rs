//! The messages exchanged between broker and clients.

use vstd::prelude::*;

verus! {

/// The identifier of a paired session.
#[verifier::external_type_specification]
#[verifier::external_body]
pub struct ExUuid(uuid::Uuid);

/// One message on the wire: a header and a payload.
#[derive(Clone, Debug, PartialEq, Eq)]
pub struct Envelope {
    pub protocol_version: u16,
    pub seq: u64,
    pub timestamp_us: u64,
    pub origin: String,
    pub session_id: Option<uuid::Uuid>,
    pub payload: Payload,
}

#[derive(Clone, Debug, PartialEq, Eq)]
pub enum Payload {
    Hello(Hello),
    Pair(Pair),
    Layout(Layout),
    EnterRemote(EnterRemote),
    ExitRemote(ExitRemote),
    MouseMove(MouseMove),
    MouseBtn(MouseBtn),
    MouseScroll(MouseScroll),
    Key(KeyEvent),
    ClipboardText(ClipboardText),
    Ping(Ping),
    Pong(Pong),
    Ack(Ack),
    Error(ErrorMessage),
}

#[derive(Clone, Debug, PartialEq, Eq)]
pub struct Hello {
    pub device_id: String,
    pub host_name: String,
    pub os: String,
    pub capabilities: Vec<String>,
}

#[derive(Clone, Debug, PartialEq, Eq)]
pub struct Pair {
    pub code: String,
}

#[derive(Clone, Debug, PartialEq, Eq)]
pub struct Layout {
    pub active_controller: String,
    pub devices: Vec<LayoutDevice>,
}

#[derive(Clone, Debug, PartialEq, Eq)]
pub struct LayoutDevice {
    pub id: String,
    pub edges: Edges,
}

/// The neighbour reached across each screen edge, if any.
#[derive(Clone, Debug, PartialEq, Eq)]
pub struct Edges {
    pub left: Option<String>,
    pub right: Option<String>,
    pub top: Option<String>,
    pub bottom: Option<String>,
}

#[derive(Clone, Debug, PartialEq, Eq)]
pub struct EnterRemote {
    pub target_device_id: String,
}

#[derive(Clone, Debug, PartialEq, Eq)]
pub struct ExitRemote {}

#[derive(Clone, Copy, Debug, PartialEq, Eq)]
pub struct MouseMove {
    pub dx: i32,
    pub dy: i32,
}

#[derive(Clone, Copy, Debug, PartialEq, Eq)]
pub struct MouseBtn {
    pub button: u8,
    pub is_down: bool,
}

#[derive(Clone, Copy, Debug, PartialEq, Eq)]
pub struct MouseScroll {
    pub delta_x: i32,
    pub delta_y: i32,
}

#[derive(Clone, Copy, Debug, PartialEq, Eq)]
pub struct KeyEvent {
    pub key_code: u32,
    pub is_down: bool,
}

#[derive(Clone, Debug, PartialEq, Eq)]
pub struct ClipboardText {
    pub text: String,
}

#[derive(Clone, Debug, PartialEq, Eq)]
pub struct Ping {}

#[derive(Clone, Debug, PartialEq, Eq)]
pub struct Pong {}

#[derive(Clone, Debug, PartialEq, Eq)]
pub struct Ack {
    pub ack_seq: u64,
}

#[derive(Clone, Debug, PartialEq, Eq)]
pub struct ErrorMessage {
    pub message: String,
}

/// The abstract content of an `Edges`: the neighbour's id on each side.
pub ghost struct EdgesView {
    pub left: Option<Seq<char>>,
    pub right: Option<Seq<char>>,
    pub top: Option<Seq<char>>,
    pub bottom: Option<Seq<char>>,
}

pub open spec fn opt_string_view(o: Option<String>) -> Option<Seq<char>> {
    match o {
        Some(s) => Some(s@),
        None => None,
    }
}

impl View for Edges {
    type V = EdgesView;

    open spec fn view(&self) -> EdgesView {
        EdgesView {
            left: opt_string_view(self.left),
            right: opt_string_view(self.right),
            top: opt_string_view(self.top),
            bottom: opt_string_view(self.bottom),
        }
    }
}

/// The abstract content of a `LayoutDevice`.
pub ghost struct LayoutDeviceView {
    pub id: Seq<char>,
    pub edges: EdgesView,
}

impl View for LayoutDevice {
    type V = LayoutDeviceView;

    open spec fn view(&self) -> LayoutDeviceView {
        LayoutDeviceView { id: self.id@, edges: self.edges@ }
    }
}

/// The abstract content of a `Layout`.
pub ghost struct LayoutView {
    pub active_controller: Seq<char>,
    pub devices: Seq<LayoutDeviceView>,
}

impl View for Layout {
    type V = LayoutView;

    open spec fn view(&self) -> LayoutView {
        LayoutView {
            active_controller: self.active_controller@,
            devices: self.devices@.map_values(|d: LayoutDevice| d@),
        }
    }
}

/// The abstract content of a `Payload`: its strings taken by their views.
pub ghost enum PayloadView {
    Hello { device_id: Seq<char>, host_name: Seq<char>, os: Seq<char>, capabilities: Seq<Seq<char>> },
    Pair { code: Seq<char> },
    Layout(LayoutView),
    EnterRemote { target_device_id: Seq<char> },
    ExitRemote,
    MouseMove(MouseMove),
    MouseBtn(MouseBtn),
    MouseScroll(MouseScroll),
    Key(KeyEvent),
    ClipboardText { text: Seq<char> },
    Ping,
    Pong,
    Ack { ack_seq: u64 },
    Error { message: Seq<char> },
}

impl View for Payload {
    type V = PayloadView;

    open spec fn view(&self) -> PayloadView {
        match *self {
            Payload::Hello(h) => PayloadView::Hello {
                device_id: h.device_id@,
                host_name: h.host_name@,
                os: h.os@,
                capabilities: h.capabilities@.map_values(|c: String| c@),
            },
            Payload::Pair(p) => PayloadView::Pair { code: p.code@ },
            Payload::Layout(l) => PayloadView::Layout(l@),
            Payload::EnterRemote(e) => PayloadView::EnterRemote { target_device_id: e.target_device_id@ },
            Payload::ExitRemote(_) => PayloadView::ExitRemote,
            Payload::MouseMove(m) => PayloadView::MouseMove(m),
            Payload::MouseBtn(b) => PayloadView::MouseBtn(b),
            Payload::MouseScroll(s) => PayloadView::MouseScroll(s),
            Payload::Key(k) => PayloadView::Key(k),
            Payload::ClipboardText(c) => PayloadView::ClipboardText { text: c.text@ },
            Payload::Ping(_) => PayloadView::Ping,
            Payload::Pong(_) => PayloadView::Pong,
            Payload::Ack(a) => PayloadView::Ack { ack_seq: a.ack_seq },
            Payload::Error(e) => PayloadView::Error { message: e.message@ },
        }
    }
}

/// The abstract content of an `Envelope`.
pub ghost struct EnvelopeView {
    pub protocol_version: u16,
    pub seq: u64,
    pub timestamp_us: u64,
    pub origin: Seq<char>,
    pub session_id: Option<uuid::Uuid>,
    pub payload: PayloadView,
}

impl View for Envelope {
    type V = EnvelopeView;

    open spec fn view(&self) -> EnvelopeView {
        EnvelopeView {
            protocol_version: self.protocol_version,
            seq: self.seq,
            timestamp_us: self.timestamp_us,
            origin: self.origin@,
            session_id: self.session_id,
            payload: self.payload@,
        }
    }
}

/// Copies an optional string, keeping its content.
pub fn clone_opt_string(o: &Option<String>) -> (r: Option<String>)
    ensures
        opt_string_view(r) == opt_string_view(*o),
{
    match o {
        Some(s) => Some(s.clone()),
        None => None,
    }
}

impl Edges {
    /// A copy with the same neighbours.
    pub fn duplicate(&self) -> (r: Edges)
        ensures
            r@ == self@,
    {
        Edges {
            left: clone_opt_string(&self.left),
            right: clone_opt_string(&self.right),
            top: clone_opt_string(&self.top),
            bottom: clone_opt_string(&self.bottom),
        }
    }
}

impl Default for Edges {
    /// No neighbour on any side.
    fn default() -> (r: Edges)
        ensures
            r@ == (EdgesView { left: None, right: None, top: None, bottom: None }),
    {
        Edges { left: None, right: None, top: None, bottom: None }
    }
}

impl Payload {
    /// Whether the payload is one of the input events that a client injects
    /// (mouse move, button, scroll or key).
    pub open spec fn is_input_event(self) -> bool {
        ||| self is MouseMove
        ||| self is MouseBtn
        ||| self is MouseScroll
        ||| self is Key
    }
}

} // verus!
