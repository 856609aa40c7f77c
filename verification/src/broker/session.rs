//! The broker's shared state: connected devices, their routes, the pairing
//! codes, and who currently controls whom.

use vstd::prelude::*;
use vstd::hash_map::StringHashMap;
use crate::broker::route_table::RouteTable;
use crate::protocol::{Edges, EdgesView, Layout, LayoutDevice, LayoutDeviceView, LayoutView};
use uuid::Uuid;

verus! {

/// A device that has said hello.
#[derive(Clone, Debug)]
pub struct Device {
    pub device_id: String,
    pub os: String,
    /// The session it joined by pairing, if it has.
    pub session_id: Option<Uuid>,
}

/// The abstract content of a `Device`.
pub ghost struct DeviceView {
    pub device_id: Seq<char>,
    pub os: Seq<char>,
    pub session_id: Option<Uuid>,
}

impl View for Device {
    type V = DeviceView;

    open spec fn view(&self) -> DeviceView {
        DeviceView { device_id: self.device_id@, os: self.os@, session_id: self.session_id }
    }
}

impl Device {
    /// A copy with the same content.
    pub fn duplicate(&self) -> (r: Device)
        ensures
            r@ == self@,
    {
        Device { device_id: self.device_id.clone(), os: self.os.clone(), session_id: self.session_id }
    }
}

/// The broker's state; `R` is the handle through which a device's
/// connection is reached.
#[verifier::reject_recursive_types(R)]
pub struct BrokerState<R> {
    /// The route of each connected device.
    pub routes: RouteTable<R>,
    /// Each connected device, by id.
    pub devices: StringHashMap<Device>,
    /// The session that each pairing code opens.
    pub pairing_codes: StringHashMap<Uuid>,
    /// The device that last took control of another.
    pub active_controller: Option<String>,
    /// The device that input is currently sent to.
    pub active_target: Option<String>,
}

/// The abstract state of a `BrokerState`.
pub ghost struct BrokerView<R> {
    pub routes: Map<Seq<char>, R>,
    pub devices: Map<Seq<char>, DeviceView>,
    pub pairing_codes: Map<Seq<char>, Uuid>,
    pub active_controller: Option<Seq<char>>,
    pub active_target: Option<Seq<char>>,
}

impl<R> View for BrokerState<R> {
    type V = BrokerView<R>;

    open spec fn view(&self) -> BrokerView<R> {
        BrokerView {
            routes: self.routes@,
            devices: self.devices@.map_values(|d: Device| d@),
            pairing_codes: self.pairing_codes@,
            active_controller: crate::protocol::opt_string_view(self.active_controller),
            active_target: crate::protocol::opt_string_view(self.active_target),
        }
    }
}

impl<R> BrokerView<R> {
    /// The registry is consistent: exactly the devices that said hello have
    /// a route, and each is filed under its own id.
    pub open spec fn registry_consistent(self) -> bool {
        &&& self.routes.dom() == self.devices.dom()
        &&& forall|k: Seq<char>| #[trigger] self.devices.contains_key(k) ==> self.devices[k].device_id == k
    }
}

impl<R> Default for BrokerState<R> {
    /// A state with no devices, no pairing codes and nobody in control.
    fn default() -> (r: Self)
        ensures
            r@.routes == Map::<Seq<char>, R>::empty(),
            r@.devices == Map::<Seq<char>, DeviceView>::empty(),
            r@.pairing_codes == Map::<Seq<char>, Uuid>::empty(),
            r@.active_controller is None,
            r@.active_target is None,
    {
        let r = BrokerState {
            routes: RouteTable::new(),
            devices: StringHashMap::new(),
            pairing_codes: StringHashMap::new(),
            active_controller: None,
            active_target: None,
        };
        assert(r@.devices =~= Map::<Seq<char>, DeviceView>::empty());
        r
    }
}

/// Calls `Uuid::new_v4()`, a random version-4 UUID.  Nothing is claimed of
/// the value: it is random.
#[verifier::external_body]
fn new_session_id() -> Uuid {
    Uuid::new_v4()
}

/// The pairing code that a fresh broker accepts.
pub open spec fn default_pairing_code() -> Seq<char> {
    "123456"@
}

/// A fresh broker: no devices, nobody in control, and the one pairing code
/// `123456`, which opens a new random session.
pub fn new_state<R>() -> (r: BrokerState<R>)
    ensures
        r@.routes == Map::<Seq<char>, R>::empty(),
        r@.devices == Map::<Seq<char>, DeviceView>::empty(),
        r@.pairing_codes.dom() == set![default_pairing_code()],
        r@.active_controller is None,
        r@.active_target is None,
        r@.registry_consistent(),
{
    let mut state: BrokerState<R> = BrokerState::default();
    state.pairing_codes.insert(String::from_str("123456"), new_session_id());
    assert(state@.pairing_codes.dom() =~= set![default_pairing_code()]);
    assert(state@.routes.dom() =~= state@.devices.dom());
    state
}

/// Edges given by the ids of their neighbours.
pub open spec fn edges_view(
    left: Option<Seq<char>>,
    right: Option<Seq<char>>,
    top: Option<Seq<char>>,
    bottom: Option<Seq<char>>,
) -> EdgesView {
    EdgesView { left, right, top, bottom }
}

/// The desk layout: the gaming PC in control, the MacBook Air to its left,
/// the Mac Pro to its right and the IdeaPad below it.
pub open spec fn default_layout_view() -> LayoutView {
    LayoutView {
        active_controller: "gaming-pc"@,
        devices: seq![
            LayoutDeviceView {
                id: "gaming-pc"@,
                edges: edges_view(Some("mac-air"@), Some("mac-pro"@), None, Some("ideapad"@)),
            },
            LayoutDeviceView { id: "ideapad"@, edges: edges_view(None, None, Some("gaming-pc"@), None) },
            LayoutDeviceView { id: "mac-air"@, edges: edges_view(None, Some("gaming-pc"@), None, None) },
            LayoutDeviceView { id: "mac-pro"@, edges: edges_view(Some("gaming-pc"@), None, None, None) },
        ],
    }
}

/// Whether every edge of `layout` is matched by the opposite edge of the
/// neighbour it leads to: crossing an edge and then crossing back returns
/// to the same device.
pub open spec fn layout_symmetric(layout: LayoutView) -> bool {
    let d = layout.devices;
    forall|i: int, j: int|
        #![trigger d[i], d[j]]
        0 <= i < d.len() && 0 <= j < d.len() ==> {
            &&& d[i].edges.left == Some(d[j].id) ==> d[j].edges.right == Some(d[i].id)
            &&& d[i].edges.right == Some(d[j].id) ==> d[j].edges.left == Some(d[i].id)
            &&& d[i].edges.top == Some(d[j].id) ==> d[j].edges.bottom == Some(d[i].id)
            &&& d[i].edges.bottom == Some(d[j].id) ==> d[j].edges.top == Some(d[i].id)
        }
}

/// The layout the broker hands out is symmetric.
pub proof fn lemma_default_layout_symmetric()
    ensures
        layout_symmetric(default_layout_view()),
{
    reveal_strlit("gaming-pc");
    reveal_strlit("ideapad");
    reveal_strlit("mac-air");
    reveal_strlit("mac-pro");
    let d = default_layout_view().devices;
    assert(d.len() == 4);
    assert("gaming-pc"@.len() == 9 && "ideapad"@.len() == 7);
    assert("ideapad"@[0] == 'i' && "mac-air"@[0] == 'm' && "mac-pro"@[0] == 'm');
    assert("mac-air"@[4] == 'a' && "mac-pro"@[4] == 'p');
    assert("gaming-pc"@ != "ideapad"@ && "gaming-pc"@ != "mac-air"@ && "gaming-pc"@ != "mac-pro"@);
    assert("ideapad"@ != "mac-air"@ && "ideapad"@ != "mac-pro"@ && "mac-air"@ != "mac-pro"@);
}

/// The layout that the broker hands out.
pub fn default_layout() -> (r: Layout)
    ensures
        r@ == default_layout_view(),
{
    let mut devices: Vec<LayoutDevice> = Vec::new();
    devices.push(LayoutDevice {
        id: String::from_str("gaming-pc"),
        edges: Edges {
            left: Some(String::from_str("mac-air")),
            right: Some(String::from_str("mac-pro")),
            top: None,
            bottom: Some(String::from_str("ideapad")),
        },
    });
    devices.push(LayoutDevice {
        id: String::from_str("ideapad"),
        edges: Edges { left: None, right: None, top: Some(String::from_str("gaming-pc")), bottom: None },
    });
    devices.push(LayoutDevice {
        id: String::from_str("mac-air"),
        edges: Edges { left: None, right: Some(String::from_str("gaming-pc")), top: None, bottom: None },
    });
    devices.push(LayoutDevice {
        id: String::from_str("mac-pro"),
        edges: Edges { left: Some(String::from_str("gaming-pc")), right: None, top: None, bottom: None },
    });
    let r = Layout { active_controller: String::from_str("gaming-pc"), devices };
    assert(r@.devices =~= default_layout_view().devices);
    r
}

} // verus!
