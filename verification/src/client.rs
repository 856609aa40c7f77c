//! A client's decisions between its I/O: when to hand control to a
//! neighbour and back, what to do with each message from the broker, and
//! what to announce on connecting.

use vstd::prelude::*;
use crate::edge::{CursorPosition, detect_edge_transition, edge_target, exit_remote};
use crate::protocol::{
    Edges, EdgesView, Hello, LayoutDevice, LayoutDeviceView, Pair, Payload, PayloadView,
};

verus! {

/// What the caller is to do with a message from the broker.
pub enum ClientAction {
    /// Nothing.
    Ignore,
    /// Inject this input event locally.
    Inject(Payload),
    /// Put this text on the local clipboard.
    SetClipboard(String),
}

/// The client's state on one connection.
pub struct ClientSession {
    device_id: String,
    edges: Edges,
    in_remote_mode: bool,
}

/// The abstract state of a `ClientSession`.
pub ghost struct ClientSessionView {
    /// This machine's device id.
    pub device_id: Seq<char>,
    /// This machine's neighbours, from the last layout that named it.
    pub edges: EdgesView,
    /// Whether control is handed to a neighbour.
    pub in_remote_mode: bool,
}

impl View for ClientSession {
    type V = ClientSessionView;

    closed spec fn view(&self) -> ClientSessionView {
        ClientSessionView { device_id: self.device_id@, edges: self.edges@, in_remote_mode: self.in_remote_mode }
    }
}

/// The edges of the first device in `devices` with id `id`, if any.
pub open spec fn layout_edges_for(devices: Seq<LayoutDeviceView>, id: Seq<char>) -> Option<EdgesView>
    decreases devices.len(),
{
    if devices.len() == 0 {
        None
    } else if devices[0].id == id {
        Some(devices[0].edges)
    } else {
        layout_edges_for(devices.drop_first(), id)
    }
}

/// The position of the first device in `devices` with id `id`, if any.
fn find_device(devices: &Vec<LayoutDevice>, id: &String) -> (r: Option<usize>)
    ensures
        match r {
            Some(i) => i < devices@.len() && Some(devices@[i as int].edges@)
                == layout_edges_for(devices@.map_values(|d: LayoutDevice| d@), id@),
            None => layout_edges_for(devices@.map_values(|d: LayoutDevice| d@), id@) is None,
        },
{
    let ghost all = devices@.map_values(|d: LayoutDevice| d@);
    let mut i: usize = 0;
    assert(all.skip(0) =~= all);
    while i < devices.len()
        invariant
            i <= devices@.len(),
            all == devices@.map_values(|d: LayoutDevice| d@),
            layout_edges_for(all, id@) == layout_edges_for(all.skip(i as int), id@),
        decreases devices@.len() - i,
    {
        assert(all.skip(i as int).drop_first() =~= all.skip(i + 1));
        if devices[i].id == *id {
            return Some(i);
        }
        i = i + 1;
    }
    None
}

/// The tick's request and new mode: out of remote mode, reaching an edge
/// with a neighbour enters it; in remote mode, a requested exit leaves it.
pub open spec fn tick_step(
    v: ClientSessionView,
    pos: CursorPosition,
    exit_requested: bool,
    deadzone: i32,
) -> (ClientSessionView, Option<PayloadView>) {
    if !v.in_remote_mode {
        match edge_target(pos, v.edges, deadzone) {
            Some(t) => (
                ClientSessionView { in_remote_mode: true, ..v },
                Some(PayloadView::EnterRemote { target_device_id: t }),
            ),
            None => (v, None),
        }
    } else if exit_requested {
        (ClientSessionView { in_remote_mode: false, ..v }, Some(PayloadView::ExitRemote))
    } else {
        (v, None)
    }
}

/// The abstract content of a `ClientAction`.
pub ghost enum ClientActionView {
    Ignore,
    Inject(PayloadView),
    SetClipboard(Seq<char>),
}

impl View for ClientAction {
    type V = ClientActionView;

    open spec fn view(&self) -> ClientActionView {
        match *self {
            ClientAction::Ignore => ClientActionView::Ignore,
            ClientAction::Inject(p) => ClientActionView::Inject(p@),
            ClientAction::SetClipboard(t) => ClientActionView::SetClipboard(t@),
        }
    }
}

/// The state after a message from the broker: a layout that names this
/// device replaces its neighbours; nothing else changes anything.
pub open spec fn message_step(v: ClientSessionView, payload: PayloadView) -> ClientSessionView {
    match payload {
        PayloadView::Layout(l) => match layout_edges_for(l.devices, v.device_id) {
            Some(e) => ClientSessionView { edges: e, ..v },
            None => v,
        },
        _ => v,
    }
}

/// What to do with a message from the broker: inject input events, put
/// clipboard text on the clipboard, and ignore anything else.
pub open spec fn message_action(payload: PayloadView) -> ClientActionView {
    match payload {
        PayloadView::MouseMove(_) => ClientActionView::Inject(payload),
        PayloadView::MouseBtn(_) => ClientActionView::Inject(payload),
        PayloadView::MouseScroll(_) => ClientActionView::Inject(payload),
        PayloadView::Key(_) => ClientActionView::Inject(payload),
        PayloadView::ClipboardText { text } => ClientActionView::SetClipboard(text),
        _ => ClientActionView::Ignore,
    }
}

/// While control is handed to a neighbour, no tick asks to hand it to
/// another: the only request is the one that takes control back.
pub proof fn lemma_no_enter_while_remote(v: ClientSessionView, pos: CursorPosition, exit_requested: bool, deadzone: i32)
    requires
        v.in_remote_mode,
    ensures
        ({
            let (w, out) = tick_step(v, pos, exit_requested, deadzone);
            &&& out is None || out == Some(PayloadView::ExitRemote)
            &&& w.in_remote_mode == !exit_requested
        }),
{
}

/// Reaching an edge with a neighbour hands control to it, and a requested
/// exit on a later tick takes it back, leaving everything else as it was.
pub proof fn lemma_enter_then_exit(v: ClientSessionView, pos: CursorPosition, later: CursorPosition, deadzone: i32)
    requires
        !v.in_remote_mode,
        edge_target(pos, v.edges, deadzone) is Some,
    ensures
        ({
            let (w, enter) = tick_step(v, pos, false, deadzone);
            let (x, exit) = tick_step(w, later, true, deadzone);
            &&& w.in_remote_mode
            &&& enter == Some(PayloadView::EnterRemote { target_device_id: edge_target(pos, v.edges, deadzone).unwrap() })
            &&& exit == Some(PayloadView::ExitRemote)
            &&& x == v
        }),
{
}

/// Every input event from the broker is injected exactly as it came, and
/// clipboard text is put on the clipboard as it came; neither changes the
/// session.
pub proof fn lemma_inputs_are_injected(v: ClientSessionView, payload: Payload)
    ensures
        payload.is_input_event() ==> message_action(payload@) == ClientActionView::Inject(payload@),
        payload matches Payload::ClipboardText(c) ==> message_action(payload@) == ClientActionView::SetClipboard(c.text@),
        !(payload is Layout) ==> message_step(v, payload@) == v,
{
}

/// A layout that names this device gives it the neighbours of the first
/// entry with its id; a layout that does not name it keeps them; a layout is
/// never acted upon otherwise, and the device id and mode never change.
pub proof fn lemma_layout_sets_edges(v: ClientSessionView, layout: crate::protocol::LayoutView)
    ensures
        ({
            let w = message_step(v, PayloadView::Layout(layout));
            &&& message_action(PayloadView::Layout(layout)) == ClientActionView::Ignore
            &&& w.device_id == v.device_id
            &&& w.in_remote_mode == v.in_remote_mode
            &&& forall|i: int| 0 <= i < layout.devices.len() && layout.devices[i].id == v.device_id
                && (forall|j: int| 0 <= j < i ==> #[trigger] layout.devices[j].id != v.device_id)
                ==> w.edges == #[trigger] layout.devices[i].edges
            &&& (forall|i: int| 0 <= i < layout.devices.len() ==> #[trigger] layout.devices[i].id != v.device_id)
                ==> w.edges == v.edges
        }),
{
    assert forall|i: int| 0 <= i < layout.devices.len() && layout.devices[i].id == v.device_id
        && (forall|j: int| 0 <= j < i ==> #[trigger] layout.devices[j].id != v.device_id)
        implies layout_edges_for(layout.devices, v.device_id) == Some(#[trigger] layout.devices[i].edges) by {
        lemma_layout_edges_first(layout.devices, v.device_id, i);
    }
    if forall|i: int| 0 <= i < layout.devices.len() ==> #[trigger] layout.devices[i].id != v.device_id {
        lemma_layout_edges_absent(layout.devices, v.device_id);
    }
}

/// The first entry with id `id` is the one `layout_edges_for` picks.
proof fn lemma_layout_edges_first(devices: Seq<LayoutDeviceView>, id: Seq<char>, i: int)
    requires
        0 <= i < devices.len(),
        devices[i].id == id,
        forall|j: int| 0 <= j < i ==> #[trigger] devices[j].id != id,
    ensures
        layout_edges_for(devices, id) == Some(devices[i].edges),
    decreases i,
{
    if i > 0 {
        assert(devices[0].id != id);
        let rest = devices.drop_first();
        assert forall|j: int| 0 <= j < i - 1 implies #[trigger] rest[j].id != id by {
            assert(rest[j] == devices[j + 1]);
        }
        lemma_layout_edges_first(rest, id, i - 1);
    }
}

/// Where no entry has id `id`, `layout_edges_for` finds none.
proof fn lemma_layout_edges_absent(devices: Seq<LayoutDeviceView>, id: Seq<char>)
    requires
        forall|i: int| 0 <= i < devices.len() ==> #[trigger] devices[i].id != id,
    ensures
        layout_edges_for(devices, id) is None,
    decreases devices.len(),
{
    if devices.len() > 0 {
        assert(devices[0].id != id);
        let rest = devices.drop_first();
        assert forall|j: int| 0 <= j < rest.len() implies #[trigger] rest[j].id != id by {
            assert(rest[j] == devices[j + 1]);
        }
        lemma_layout_edges_absent(rest, id);
    }
}

/// The views of an optional payload.
pub open spec fn opt_payload_view(p: Option<Payload>) -> Option<PayloadView> {
    match p {
        Some(p) => Some(p@),
        None => None,
    }
}

impl ClientSession {
    /// A session for device `device_id`, with no neighbours known and
    /// control local.
    pub fn new(device_id: String) -> (r: Self)
        ensures
            r@ == (ClientSessionView {
                device_id: device_id@,
                edges: EdgesView { left: None, right: None, top: None, bottom: None },
                in_remote_mode: false,
            }),
    {
        ClientSession { device_id, edges: Edges::default(), in_remote_mode: false }
    }

    /// One tick with the cursor at `pos` and `exit_requested` telling
    /// whether the user asked to take control back: the request to send, if
    /// any.
    pub fn on_tick(&mut self, pos: &CursorPosition, exit_requested: bool, deadzone: i32) -> (r: Option<Payload>)
        ensures
            (final(self)@, opt_payload_view(r)) == tick_step(old(self)@, *pos, exit_requested, deadzone),
    {
        if !self.in_remote_mode {
            match detect_edge_transition(pos, &self.edges, deadzone) {
                Some(payload) => {
                    self.in_remote_mode = true;
                    Some(payload)
                },
                None => None,
            }
        } else if exit_requested {
            self.in_remote_mode = false;
            Some(exit_remote())
        } else {
            None
        }
    }

    /// Decides on a payload from the broker: a layout that names this
    /// device replaces its neighbours; input events are injected; clipboard
    /// text is put on the clipboard; anything else is ignored.
    pub fn on_message(&mut self, payload: Payload) -> (r: ClientAction)
        ensures
            final(self)@ == message_step(old(self)@, payload@),
            r@ == message_action(payload@),
    {
        match payload {
            Payload::Layout(layout) => {
                match find_device(&layout.devices, &self.device_id) {
                    Some(i) => {
                        self.edges = layout.devices[i].edges.duplicate();
                    },
                    None => {},
                }
                ClientAction::Ignore
            },
            Payload::MouseMove(_) | Payload::MouseBtn(_) | Payload::MouseScroll(_) | Payload::Key(_) => {
                ClientAction::Inject(payload)
            },
            Payload::ClipboardText(data) => ClientAction::SetClipboard(data.text),
            _ => ClientAction::Ignore,
        }
    }
}

/// The capabilities a client announces.
pub open spec fn client_capabilities() -> Seq<Seq<char>> {
    seq!["mouse"@, "keyboard"@, "clipboard-text"@, "edge-switch"@]
}

/// The hello a client sends on connecting.
pub fn hello_payload(device_id: String, host_name: String, os: String) -> (r: Payload)
    ensures
        r@ == (PayloadView::Hello {
            device_id: device_id@,
            host_name: host_name@,
            os: os@,
            capabilities: client_capabilities(),
        }),
{
    let mut capabilities: Vec<String> = Vec::new();
    capabilities.push(String::from_str("mouse"));
    capabilities.push(String::from_str("keyboard"));
    capabilities.push(String::from_str("clipboard-text"));
    capabilities.push(String::from_str("edge-switch"));
    let r = Payload::Hello(Hello { device_id, host_name, os, capabilities });
    assert(capabilities@.map_values(|c: String| c@) =~= client_capabilities());
    r
}

/// The host name a client announces, from the `HOSTNAME` and
/// `COMPUTERNAME` settings: the first that is set, else `unknown-host`.
pub fn host_name_from(hostname: Option<String>, computername: Option<String>) -> (r: String)
    ensures
        r@ == (match (hostname, computername) {
            (Some(h), _) => h@,
            (None, Some(c)) => c@,
            (None, None) => "unknown-host"@,
        }),
{
    match hostname {
        Some(h) => h,
        None => match computername {
            Some(c) => c,
            None => String::from_str("unknown-host"),
        },
    }
}

/// The pairing request a client sends after its hello.
pub fn pair_payload(code: String) -> (r: Payload)
    ensures
        r@ == (PayloadView::Pair { code: code@ }),
{
    Payload::Pair(Pair { code })
}

/// The local clipboard text: none can be read yet on any platform.
pub fn read_clipboard_text() -> (r: String)
    ensures
        r@ == Seq::<char>::empty(),
{
    String::new()
}

/// Puts text on the local clipboard: not possible yet on any platform, so
/// the text is dropped.
pub fn set_clipboard_text(_text: &str) {
}

/// The cursor's position: no platform reports it yet, so a fixed point in
/// the middle of a 1920 by 1080 screen stands for it.
pub fn cursor_position() -> (r: CursorPosition)
    ensures
        r == (CursorPosition { x: 100, y: 100, width: 1920, height: 1080 }),
{
    CursorPosition { x: 100, y: 100, width: 1920, height: 1080 }
}

/// Whether the user asked to take control back: no hotkey exists yet.
pub fn should_exit_remote() -> (r: bool)
    ensures
        !r,
{
    false
}

} // verus!
