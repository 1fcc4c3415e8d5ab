//! Capture devices as the command line describes and selects them.
use vstd::prelude::*;
use crate::text::{push_str, push_string, strings_view};
use crate::ethernet::packet_detail::{push_line, push_text_line};

verus! {

/// Whether a capture device's adapter is connected.
#[derive(Debug, Clone, Copy, PartialEq, Eq)]
pub enum ConnectionStatus {
    /// It is unknown whether the adapter is connected.
    Unknown,
    /// The adapter is connected.
    Connected,
    /// The adapter is disconnected.
    Disconnected,
    /// The notion of "connected" does not apply to this interface.
    NotApplicable,
}

/// What the command line shows of a capture device.
#[derive(Debug, Clone)]
pub struct DeviceInfo {
    /// The name of the interface.
    pub name: String,
    /// A textual description of the interface, if available.
    pub desc: Option<String>,
    /// The text of each address of the interface.
    pub addresses: Vec<String>,
    /// Whether the adapter is connected.
    pub status: ConnectionStatus,
}

/// The status line of a device.
pub open spec fn status_line(s: ConnectionStatus) -> Seq<char> {
    match s {
        ConnectionStatus::Unknown => "Status: 🟡 Unknown"@,
        ConnectionStatus::Connected => "Status: 🟢 Connected"@,
        ConnectionStatus::Disconnected => "Status: 🔴 Disconnected"@,
        ConnectionStatus::NotApplicable => "Status: 🟣 Not Applicable"@,
    }
}

/// The lines describing a device: name, description if any, status, and the addresses
/// under a heading when there are any.
pub open spec fn device_lines(d: DeviceInfo) -> Seq<Seq<char>> {
    seq!["Name: "@ + d.name@] + match d.desc {
        Some(desc) => seq!["Description: "@ + desc@],
        None => seq![],
    } + seq![status_line(d.status)] + if d.addresses@.len() > 0 {
        seq!["Addresses:"@] + strings_view(d.addresses@).map_values(|a: Seq<char>| "- "@ + a)
    } else {
        seq![]
    }
}

/// Describe the given device.
pub fn describe_device(device: &DeviceInfo) -> (r: Vec<String>)
    ensures
        strings_view(r@) == device_lines(*device),
{
    let mut result: Vec<String> = Vec::new();
    let mut l: Vec<char> = Vec::new();
    push_str(&mut l, "Name: ");
    push_string(&mut l, &device.name);
    push_line(&mut result, &l);
    if let Some(desc) = &device.desc {
        let mut l: Vec<char> = Vec::new();
        push_str(&mut l, "Description: ");
        push_string(&mut l, desc);
        push_line(&mut result, &l);
    }
    match device.status {
        ConnectionStatus::Unknown => push_text_line(&mut result, "Status: 🟡 Unknown"),
        ConnectionStatus::Connected => push_text_line(&mut result, "Status: 🟢 Connected"),
        ConnectionStatus::Disconnected => push_text_line(&mut result, "Status: 🔴 Disconnected"),
        ConnectionStatus::NotApplicable => push_text_line(&mut result, "Status: 🟣 Not Applicable"),
    }
    let ghost head = strings_view(result@);
    let ghost addrs = strings_view(device.addresses@);
    let ghost mapped = addrs.map_values(|a: Seq<char>| "- "@ + a);
    if device.addresses.len() > 0 {
        push_text_line(&mut result, "Addresses:");
        let mut i: usize = 0;
        while i < device.addresses.len()
            invariant
                i <= device.addresses@.len(),
                addrs == strings_view(device.addresses@),
                mapped == addrs.map_values(|a: Seq<char>| "- "@ + a),
                strings_view(result@) == head + seq!["Addresses:"@] + mapped.take(i as int),
            decreases device.addresses@.len() - i,
        {
            let mut l: Vec<char> = Vec::new();
            push_str(&mut l, "- ");
            push_string(&mut l, &device.addresses[i]);
            push_line(&mut result, &l);
            assert(addrs[i as int] == device.addresses@[i as int]@);
            assert(mapped.take(i + 1) =~= mapped.take(i as int).push("- "@ + addrs[i as int]));
            i = i + 1;
        }
        assert(mapped.take(i as int) =~= mapped);
    }
    assert(strings_view(result@) =~= device_lines(*device));
    result
}

/// Whether a device is the one that `name_or_addr` names: by its name or by the text of
/// one of its addresses.
pub open spec fn names_device(d: DeviceInfo, name_or_addr: Seq<char>) -> bool {
    d.name@ == name_or_addr || exists|j: int|
        0 <= j < d.addresses@.len() && #[trigger] d.addresses@[j]@ == name_or_addr
}

/// Whether two strings hold the same characters.
fn same_text(a: &String, b: &str) -> (r: bool)
    ensures
        r == (a@ == b@),
{
    let x = crate::text::chars_of(a.as_str());
    let y = crate::text::chars_of(b);
    if x.len() != y.len() {
        return false;
    }
    let mut i: usize = 0;
    while i < x.len()
        invariant
            x@ == a@,
            y@ == b@,
            x@.len() == y@.len(),
            i <= x@.len(),
            forall|k: int| 0 <= k < i ==> x@[k] == y@[k],
        decreases x@.len() - i,
    {
        if x[i] != y[i] {
            return false;
        }
        i = i + 1;
    }
    assert(x@ =~= y@);
    true
}

/// Whether `device` is the one that `name_or_addr` names.
fn device_named(device: &DeviceInfo, name_or_addr: &str) -> (r: bool)
    ensures
        r == names_device(*device, name_or_addr@),
{
    if same_text(&device.name, name_or_addr) {
        return true;
    }
    let mut j: usize = 0;
    while j < device.addresses.len()
        invariant
            j <= device.addresses@.len(),
            device.name@ != name_or_addr@,
            forall|k: int| 0 <= k < j ==> device.addresses@[k]@ != name_or_addr@,
        decreases device.addresses@.len() - j,
    {
        if same_text(&device.addresses[j], name_or_addr) {
            return true;
        }
        j = j + 1;
    }
    false
}

/// The position of the first device that `name_or_addr` names, by name or by address.
pub fn find_device(devices: &Vec<DeviceInfo>, name_or_addr: &str) -> (r: Option<usize>)
    ensures
        r matches Some(i) ==> i < devices@.len() && names_device(devices@[i as int], name_or_addr@)
            && forall|k: int| 0 <= k < i ==> !names_device(devices@[k], name_or_addr@),
        r is None ==> forall|k: int| 0 <= k < devices@.len() ==> !names_device(
            #[trigger] devices@[k],
            name_or_addr@,
        ),
{
    let mut i: usize = 0;
    while i < devices.len()
        invariant
            i <= devices@.len(),
            forall|k: int| 0 <= k < i ==> !names_device(#[trigger] devices@[k], name_or_addr@),
        decreases devices@.len() - i,
    {
        if device_named(&devices[i], name_or_addr) {
            return Some(i);
        }
        i = i + 1;
    }
    None
}

} // verus!
