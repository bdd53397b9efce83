use vstd::prelude::*;

use crate::text::{lemma_text_le_total, text_le, text_le_spec};
use crate::theme::MyTheme;
use crate::window::{holds_device, BluetoothState, Tab};

verus! {

/// The kind of a paired device.
#[derive(Clone, Copy, Debug, PartialEq, Eq, Structural)]
pub enum DeviceType {
    AirPods,
    Other,
}

/// What the accessory reported about itself.
#[derive(Clone, Debug)]
pub struct AirPodsInformation {
    pub name: String,
    pub model_number: String,
    pub manufacturer: String,
    pub serial_number: String,
    pub left_serial_number: String,
    pub right_serial_number: String,
    pub version1: String,
    pub version2: String,
    pub version3: String,
}

/// Device details, by kind of device.
#[derive(Clone, Debug)]
pub enum DeviceInformation {
    AirPods(AirPodsInformation),
    Other,
}

/// One entry of the device registry.
#[derive(Clone, Debug)]
pub struct DeviceData {
    pub name: String,
    pub type_: DeviceType,
    pub information: Option<DeviceInformation>,
}

/// A row of the sidebar: one device.
#[derive(Clone, Debug)]
pub struct SidebarEntry {
    pub tab: Tab,
    pub label: String,
    pub description: String,
    pub selected: bool,
}

/// A labelled value of the device pane; a copyable value puts itself on
/// the clipboard when chosen.
#[derive(Clone, Debug)]
pub struct DetailRow {
    pub label: String,
    pub value: String,
    pub copyable: bool,
}

/// What the content pane shows.
#[derive(Clone, Debug)]
pub enum ContentView {
    /// No device chosen yet: a prompt to choose one.
    Placeholder,
    /// A device's details; no rows where there are none to show.
    DeviceDetail(Vec<DetailRow>),
    /// The settings, with the theme now chosen.
    Settings(MyTheme),
}

/// Whether two tabs name the same pane content.
pub open spec fn same_tab(a: Tab, b: Tab) -> bool {
    match (a, b) {
        (Tab::Device(x), Tab::Device(y)) => x@ == y@,
        (Tab::Settings, Tab::Settings) => true,
        _ => false,
    }
}

/// Sidebar order of two registry entries: by display name, case-sensitive
/// and by code point, then by identifier.
pub open spec fn entry_le(a: (String, DeviceData), b: (String, DeviceData)) -> bool {
    if a.1.name@ == b.1.name@ {
        text_le_spec(a.0@, b.0@)
    } else {
        text_le_spec(a.1.name@, b.1.name@)
    }
}

/// `ord` lists every index of `reg` once, in sidebar order.
pub open spec fn sorted_order(reg: Seq<(String, DeviceData)>, ord: Seq<usize>) -> bool {
    &&& ord.len() == reg.len()
    &&& forall|k: int| 0 <= k < ord.len() ==> #[trigger] ord[k] < reg.len()
    &&& forall|k1: int, k2: int| 0 <= k1 < ord.len() && 0 <= k2 < ord.len() && k1 != k2 ==> ord[k1] != ord[k2]
    &&& forall|k: int| 0 <= k < ord.len() - 1 ==> entry_le(reg[#[trigger] ord[k] as int], reg[ord[k + 1] as int])
}

/// The sidebar row of registry entry `e`.
pub open spec fn entry_shows(row: SidebarEntry, e: (String, DeviceData), selected: Tab, connected: Seq<String>) -> bool {
    &&& row.tab == Tab::Device(e.0)
    &&& row.label@ == e.1.name@
    &&& row.description@ == (if holds_device(connected, e.0@) { "Connected - "@ + e.0@ } else { e.0@ })
    &&& row.selected == same_tab(selected, Tab::Device(e.0))
}

/// The first registry entry under identifier `id`.
pub open spec fn first_with_id(reg: Seq<(String, DeviceData)>, id: Seq<char>, j: int) -> bool {
    &&& 0 <= j < reg.len()
    &&& reg[j].0@ == id
    &&& forall|k: int| 0 <= k < j ==> reg[k].0@ != id
}

/// The detail rows of an accessory: model, maker, the three serial numbers
/// (copyable) and the three versions.
pub open spec fn rows_show(rows: Seq<DetailRow>, info: AirPodsInformation) -> bool {
    &&& rows.len() == 8
    &&& rows[0].label@ == "Model Number"@ && rows[0].value@ == info.model_number@ && rows[0].copyable == false
    &&& rows[1].label@ == "Manufacturer"@ && rows[1].value@ == info.manufacturer@ && rows[1].copyable == false
    &&& rows[2].label@ == "Serial Number"@ && rows[2].value@ == info.serial_number@ && rows[2].copyable == true
    &&& rows[3].label@ == "Left Serial Number"@ && rows[3].value@ == info.left_serial_number@ && rows[3].copyable == true
    &&& rows[4].label@ == "Right Serial Number"@ && rows[4].value@ == info.right_serial_number@ && rows[4].copyable == true
    &&& rows[5].label@ == "Version 1"@ && rows[5].value@ == info.version1@ && rows[5].copyable == false
    &&& rows[6].label@ == "Version 2"@ && rows[6].value@ == info.version2@ && rows[6].copyable == false
    &&& rows[7].label@ == "Version 3"@ && rows[7].value@ == info.version3@ && rows[7].copyable == false
}

/// The device pane for the entry under `id`: its rows where it is an
/// accessory with accessory details, and no rows otherwise.
pub open spec fn device_pane(reg: Seq<(String, DeviceData)>, id: Seq<char>, rows: Seq<DetailRow>) -> bool {
    if exists|j: int| first_with_id(reg, id, j) {
        let j = choose|j: int| first_with_id(reg, id, j);
        match reg[j].1.information {
            Some(DeviceInformation::AirPods(info)) if reg[j].1.type_ == DeviceType::AirPods => rows_show(rows, info),
            _ => rows.len() == 0,
        }
    } else {
        rows.len() == 0
    }
}

/// Whether two tabs name the same pane content.
pub fn tab_matches(a: &Tab, b: &Tab) -> (r: bool)
    ensures
        r == same_tab(*a, *b),
{
    match (a, b) {
        (Tab::Device(x), Tab::Device(y)) => *x == *y,
        (Tab::Settings, Tab::Settings) => true,
        _ => false,
    }
}

fn entry_before(a: &(String, DeviceData), b: &(String, DeviceData)) -> (r: bool)
    ensures
        r == entry_le(*a, *b),
{
    if a.1.name == b.1.name {
        text_le(&a.0, &b.0)
    } else {
        text_le(&a.1.name, &b.1.name)
    }
}

proof fn lemma_entry_le_total(a: (String, DeviceData), b: (String, DeviceData))
    ensures
        entry_le(a, b) || entry_le(b, a),
{
    lemma_text_le_total(a.0@, b.0@);
    lemma_text_le_total(a.1.name@, b.1.name@);
}

/// The registry's indices in sidebar order: by display name, compared
/// case-sensitively by code point, ties broken by identifier.
pub fn sidebar_order(registry: &Vec<(String, DeviceData)>) -> (r: Vec<usize>)
    ensures
        sorted_order(registry@, r@),
{
    let n = registry.len();
    let mut order: Vec<usize> = Vec::new();
    let mut i: usize = 0;
    while i < n
        invariant
            n == registry@.len(),
            i <= n,
            order@.len() == i,
            forall|k: int| 0 <= k < order@.len() ==> #[trigger] order@[k] < i,
            forall|k1: int, k2: int| 0 <= k1 < order@.len() && 0 <= k2 < order@.len() && k1 != k2 ==> order@[k1] != order@[k2],
            forall|k: int| 0 <= k < order@.len() - 1 ==> entry_le(registry@[#[trigger] order@[k] as int], registry@[order@[k + 1] as int]),
        decreases n - i,
    {
        let mut p: usize = 0;
        while p < order.len() && entry_before(&registry[order[p]], &registry[i])
            invariant
                n == registry@.len(),
                i < n,
                p <= order@.len(),
                order@.len() == i,
                forall|k: int| 0 <= k < order@.len() ==> #[trigger] order@[k] < i,
                forall|q: int| 0 <= q < p ==> entry_le(registry@[#[trigger] order@[q] as int], registry@[i as int]),
            decreases order@.len() - p,
        {
            p = p + 1;
        }
        let ghost before = order@;
        proof {
            if p < before.len() {
                lemma_entry_le_total(registry@[before[p as int] as int], registry@[i as int]);
            }
        }
        order.insert(p, i);
        proof {
            assert forall|k: int| 0 <= k < order@.len() implies #[trigger] order@[k] < i + 1 by {
                if k < p {
                    assert(order@[k] == before[k]);
                } else if k > p {
                    assert(order@[k] == before[k - 1]);
                }
            }
            assert forall|k1: int, k2: int| 0 <= k1 < order@.len() && 0 <= k2 < order@.len() && k1 != k2
                implies order@[k1] != order@[k2] by {
                if k1 != p && k2 != p {
                    let b1 = if k1 < p { k1 } else { k1 - 1 };
                    let b2 = if k2 < p { k2 } else { k2 - 1 };
                    assert(order@[k1] == before[b1]);
                    assert(order@[k2] == before[b2]);
                } else if k1 == p {
                    let b2 = if k2 < p { k2 } else { k2 - 1 };
                    assert(order@[k2] == before[b2]);
                    assert(before[b2] < i);
                } else {
                    let b1 = if k1 < p { k1 } else { k1 - 1 };
                    assert(order@[k1] == before[b1]);
                    assert(before[b1] < i);
                }
            }
            assert forall|k: int| 0 <= k < order@.len() - 1
                implies entry_le(registry@[#[trigger] order@[k] as int], registry@[order@[k + 1] as int]) by {
                if k + 1 < p {
                    assert(order@[k] == before[k]);
                    assert(order@[k + 1] == before[k + 1]);
                } else if k + 1 == p {
                    assert(order@[k] == before[k]);
                } else if k == p {
                    assert(order@[k + 1] == before[k]);
                } else {
                    assert(order@[k] == before[k - 1]);
                    assert(order@[k + 1] == before[k]);
                }
            }
        }
        i = i + 1;
    }
    order
}

fn sidebar_row(entry: &(String, DeviceData), selected: &Tab, connected: &BluetoothState) -> (r: SidebarEntry)
    ensures
        entry_shows(r, *entry, *selected, connected.connected_devices@),
{
    let tab = Tab::Device(entry.0.clone());
    let is_selected = tab_matches(selected, &tab);
    let description = if connected.is_connected(&entry.0) {
        let prefix = String::from_str("Connected - ");
        prefix.concat(entry.0.as_str())
    } else {
        entry.0.clone()
    };
    SidebarEntry { tab, label: entry.1.name.clone(), description, selected: is_selected }
}

/// The sidebar's device rows: one per registry entry, in sidebar order,
/// each marked connected and selected as the state says.
pub fn sidebar_entries(registry: &Vec<(String, DeviceData)>, selected: &Tab, connected: &BluetoothState) -> (r: Vec<SidebarEntry>)
    ensures
        exists|ord: Seq<usize>| #[trigger] sorted_order(registry@, ord)
            && r@.len() == ord.len()
            && forall|k: int| 0 <= k < ord.len() ==> entry_shows(#[trigger] r@[k], registry@[ord[k] as int], *selected, connected.connected_devices@),
{
    let order = sidebar_order(registry);
    let mut rows: Vec<SidebarEntry> = Vec::new();
    let mut k: usize = 0;
    while k < order.len()
        invariant
            sorted_order(registry@, order@),
            k <= order@.len(),
            rows@.len() == k,
            forall|q: int| 0 <= q < k ==> entry_shows(#[trigger] rows@[q], registry@[order@[q] as int], *selected, connected.connected_devices@),
        decreases order@.len() - k,
    {
        let row = sidebar_row(&registry[order[k]], selected, connected);
        rows.push(row);
        k = k + 1;
    }
    assert(sorted_order(registry@, order@));
    rows
}

/// Whether the settings row of the sidebar is marked selected.
pub fn settings_selected(selected: &Tab) -> (r: bool)
    ensures
        r == (*selected is Settings),
{
    match selected {
        Tab::Settings => true,
        Tab::Device(_) => false,
    }
}

/// The first registry entry under identifier `id`, if any.
pub fn find_device(registry: &Vec<(String, DeviceData)>, id: &String) -> (r: Option<usize>)
    ensures
        match r {
            Some(j) => first_with_id(registry@, id@, j as int),
            None => forall|k: int| 0 <= k < registry@.len() ==> registry@[k].0@ != id@,
        },
{
    let mut i: usize = 0;
    while i < registry.len()
        invariant
            forall|k: int| 0 <= k < i ==> registry@[k].0@ != id@,
        decreases registry.len() - i,
    {
        if registry[i].0 == *id {
            return Some(i);
        }
        i = i + 1;
    }
    None
}

fn row(label: &str, value: &String, copyable: bool) -> (r: DetailRow)
    ensures
        r.label@ == label@,
        r.value@ == value@,
        r.copyable == copyable,
{
    DetailRow { label: String::from_str(label), value: value.clone(), copyable }
}

/// The detail rows of an accessory.
pub fn detail_rows(info: &AirPodsInformation) -> (r: Vec<DetailRow>)
    ensures
        rows_show(r@, *info),
{
    let mut v: Vec<DetailRow> = Vec::new();
    v.push(row("Model Number", &info.model_number, false));
    v.push(row("Manufacturer", &info.manufacturer, false));
    v.push(row("Serial Number", &info.serial_number, true));
    v.push(row("Left Serial Number", &info.left_serial_number, true));
    v.push(row("Right Serial Number", &info.right_serial_number, true));
    v.push(row("Version 1", &info.version1, false));
    v.push(row("Version 2", &info.version2, false));
    v.push(row("Version 3", &info.version3, false));
    v
}

/// What the content pane shows for the selected tab: the settings with the
/// chosen theme; a prompt while no device is chosen (the identifier
/// `"none"`); else the chosen device's details, with no rows where the
/// device is missing from the registry or has no accessory details.
pub fn content_view(selected: &Tab, registry: &Vec<(String, DeviceData)>, theme: MyTheme) -> (r: ContentView)
    ensures
        match *selected {
            Tab::Settings => r == ContentView::Settings(theme),
            Tab::Device(id) => if id@ == "none"@ {
                r is Placeholder
            } else {
                r matches ContentView::DeviceDetail(rows) && device_pane(registry@, id@, rows@)
            },
        },
{
    match selected {
        Tab::Settings => ContentView::Settings(theme),
        Tab::Device(id) => {
            let none = String::from_str("none");
            if *id == none {
                ContentView::Placeholder
            } else {
                match find_device(registry, id) {
                    Some(j) => {
                        let d = &registry[j].1;
                        proof {
                            assert(first_with_id(registry@, id@, j as int));
                        }
                        let rows = match &d.information {
                            Some(DeviceInformation::AirPods(info)) => {
                                if d.type_ == DeviceType::AirPods {
                                    detail_rows(info)
                                } else {
                                    Vec::new()
                                }
                            },
                            _ => Vec::new(),
                        };
                        proof {
                            let c = choose|c: int| first_with_id(registry@, id@, c);
                            if c < j {
                                assert(registry@[c].0@ != id@);
                            } else if c > j {
                                assert(registry@[j as int].0@ != id@);
                            }
                        }
                        ContentView::DeviceDetail(rows)
                    },
                    None => ContentView::DeviceDetail(Vec::new()),
                }
            }
        },
    }
}

} // verus!
