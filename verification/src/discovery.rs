//! Device discovery: matching the fixed vendor/product identity and
//! choosing a bulk endpoint pair from interface descriptors.

use vstd::prelude::*;

use crate::constants::{USB_PID, USB_VID};
use crate::types::DeviceInfo;

verus! {

/// Direction of a USB endpoint.
#[derive(Debug, Clone, Copy, PartialEq, Eq, Structural)]
pub enum EndpointDirection {
    In,
    Out,
}

/// Transfer type of a USB endpoint.
#[derive(Debug, Clone, Copy, PartialEq, Eq, Structural)]
pub enum TransferKind {
    Control,
    Isochronous,
    Bulk,
    Interrupt,
}

/// One endpoint as an interface descriptor reports it.
#[derive(Debug, Clone, Copy, PartialEq, Eq, Structural)]
pub struct EndpointInfo {
    /// The endpoint address, direction bit included.
    pub address: u8,
    /// The direction the address encodes.
    pub direction: EndpointDirection,
    /// The transfer type.
    pub kind: TransferKind,
}

/// One interface with the endpoints its descriptor lists.
#[derive(Debug, Clone)]
pub struct InterfaceInfo {
    /// The interface number used to claim it.
    pub number: u8,
    /// Its endpoints, in descriptor order.
    pub endpoints: Vec<EndpointInfo>,
}

/// Whether the endpoint is a bulk endpoint of the given direction.
pub open spec fn is_bulk(e: EndpointInfo, dir: EndpointDirection) -> bool {
    e.kind == TransferKind::Bulk && e.direction == dir
}

/// Whether some endpoint of the list is a bulk endpoint of the given
/// direction.
pub open spec fn has_bulk(eps: Seq<EndpointInfo>, dir: EndpointDirection) -> bool {
    exists|i: int| 0 <= i < eps.len() && is_bulk(#[trigger] eps[i], dir)
}

/// Whether an interface offers both bulk directions.
pub open spec fn interface_suitable(iface: InterfaceInfo) -> bool {
    has_bulk(iface.endpoints@, EndpointDirection::In)
        && has_bulk(iface.endpoints@, EndpointDirection::Out)
}

/// The address at `i` is the one a front-to-back scan of the list
/// leaves behind for this direction: a bulk endpoint of the direction
/// with none after it.
pub open spec fn last_bulk_at(eps: Seq<EndpointInfo>, dir: EndpointDirection, i: int) -> bool {
    &&& 0 <= i < eps.len()
    &&& is_bulk(eps[i], dir)
    &&& forall|j: int| i < j < eps.len() ==> !is_bulk(#[trigger] eps[j], dir)
}

/// Scans an interface's endpoints for a bulk-OUT and a bulk-IN
/// address.  Both present: the pair (write address, read address),
/// each the last of its direction in descriptor order.  Either
/// missing: nothing.
pub fn select_bulk_endpoints(endpoints: &Vec<EndpointInfo>) -> (r: Option<(u8, u8)>)
    ensures
        r is Some <==> (has_bulk(endpoints@, EndpointDirection::In) && has_bulk(
            endpoints@,
            EndpointDirection::Out,
        )),
        r matches Some(pair) ==> exists|i: int, j: int|
            {
                &&& #[trigger] last_bulk_at(endpoints@, EndpointDirection::Out, i)
                &&& #[trigger] last_bulk_at(endpoints@, EndpointDirection::In, j)
                &&& pair.0 == endpoints@[i].address
                &&& pair.1 == endpoints@[j].address
            },
{
    let mut write_ep: u8 = 0x01;
    let mut read_ep: u8 = 0x81;
    let mut found_in: bool = false;
    let mut found_out: bool = false;
    let ghost mut in_at: int = 0;
    let ghost mut out_at: int = 0;
    let mut k: usize = 0;
    while k < endpoints.len()
        invariant
            k <= endpoints@.len(),
            found_in <==> has_bulk(endpoints@.take(k as int), EndpointDirection::In),
            found_out <==> has_bulk(endpoints@.take(k as int), EndpointDirection::Out),
            found_in ==> {
                &&& 0 <= in_at < k
                &&& is_bulk(endpoints@[in_at], EndpointDirection::In)
                &&& read_ep == endpoints@[in_at].address
                &&& forall|j: int|
                    in_at < j < k ==> !is_bulk(#[trigger] endpoints@[j], EndpointDirection::In)
            },
            found_out ==> {
                &&& 0 <= out_at < k
                &&& is_bulk(endpoints@[out_at], EndpointDirection::Out)
                &&& write_ep == endpoints@[out_at].address
                &&& forall|j: int|
                    out_at < j < k ==> !is_bulk(#[trigger] endpoints@[j], EndpointDirection::Out)
            },
        decreases endpoints@.len() - k,
    {
        let e = endpoints[k];
        if matches!(e.kind, TransferKind::Bulk) {
            if matches!(e.direction, EndpointDirection::In) {
                read_ep = e.address;
                found_in = true;
                proof {
                    in_at = k as int;
                }
            } else {
                write_ep = e.address;
                found_out = true;
                proof {
                    out_at = k as int;
                }
            }
        }
        proof {
            assert(endpoints@.take(k + 1).drop_last() =~= endpoints@.take(k as int));
            assert(endpoints@.take(k + 1).last() == endpoints@[k as int]);
            if found_in && !has_bulk(endpoints@.take(k as int), EndpointDirection::In) {
                assert(has_bulk(endpoints@.take(k + 1), EndpointDirection::In)) by {
                    assert(is_bulk(endpoints@.take(k + 1)[k as int], EndpointDirection::In));
                }
            }
            if found_out && !has_bulk(endpoints@.take(k as int), EndpointDirection::Out) {
                assert(has_bulk(endpoints@.take(k + 1), EndpointDirection::Out)) by {
                    assert(is_bulk(endpoints@.take(k + 1)[k as int], EndpointDirection::Out));
                }
            }
            assert forall|dir: EndpointDirection|
                has_bulk(endpoints@.take(k + 1), dir) && !is_bulk(
                    endpoints@[k as int],
                    dir,
                ) implies has_bulk(endpoints@.take(k as int), dir) by {
                let i = choose|i: int|
                    0 <= i < endpoints@.take(k + 1).len() && is_bulk(
                        #[trigger] endpoints@.take(k + 1)[i],
                        dir,
                    );
                assert(i < k ==> is_bulk(endpoints@.take(k as int)[i], dir));
            }
        }
        k = k + 1;
    }
    proof {
        assert(endpoints@.take(endpoints@.len() as int) =~= endpoints@);
    }
    if found_in && found_out {
        proof {
            assert(last_bulk_at(endpoints@, EndpointDirection::Out, out_at));
            assert(last_bulk_at(endpoints@, EndpointDirection::In, in_at));
        }
        Some((write_ep, read_ep))
    } else {
        None
    }
}

/// Picks the interface a linear scan binds: the first that offers
/// both bulk directions.
pub fn select_interface(interfaces: &Vec<InterfaceInfo>) -> (r: Option<usize>)
    ensures
        r matches Some(k) ==> {
            &&& 0 <= k < interfaces@.len()
            &&& interface_suitable(interfaces@[k as int])
            &&& forall|j: int| 0 <= j < k ==> !interface_suitable(#[trigger] interfaces@[j])
        },
        r is None ==> forall|j: int|
            0 <= j < interfaces@.len() ==> !interface_suitable(#[trigger] interfaces@[j]),
{
    let mut k: usize = 0;
    while k < interfaces.len()
        invariant
            k <= interfaces@.len(),
            forall|j: int| 0 <= j < k ==> !interface_suitable(#[trigger] interfaces@[j]),
        decreases interfaces@.len() - k,
    {
        if select_bulk_endpoints(&interfaces[k].endpoints).is_some() {
            return Some(k);
        }
        k = k + 1;
    }
    None
}

/// Whether the identity is the controller's fixed one.
pub open spec fn is_bot_id(vid: u16, pid: u16) -> bool {
    vid == USB_VID && pid == USB_PID
}

/// Finds the device a linear scan binds: the first whose identity
/// matches the fixed vendor/product pair.
pub fn find_device(devices: &Vec<DeviceInfo>) -> (r: Option<usize>)
    ensures
        r matches Some(k) ==> {
            &&& 0 <= k < devices@.len()
            &&& is_bot_id(devices@[k as int].vid, devices@[k as int].pid)
            &&& forall|j: int|
                0 <= j < k ==> !is_bot_id(
                    (#[trigger] devices@[j]).vid,
                    devices@[j].pid,
                )
        },
        r is None ==> forall|j: int|
            0 <= j < devices@.len() ==> !is_bot_id((#[trigger] devices@[j]).vid, devices@[j].pid),
{
    let mut k: usize = 0;
    while k < devices.len()
        invariant
            k <= devices@.len(),
            forall|j: int|
                0 <= j < k ==> !is_bot_id((#[trigger] devices@[j]).vid, devices@[j].pid),
        decreases devices@.len() - k,
    {
        if devices[k].vid == USB_VID && devices[k].pid == USB_PID {
            return Some(k);
        }
        k = k + 1;
    }
    None
}

/// Finds the device a connect call binds, or the error it reports:
/// no matching identity in the scan means `DeviceNotFound`.
pub fn require_device(devices: &Vec<DeviceInfo>) -> (r: Result<usize, crate::error::BotError>)
    ensures
        r matches Ok(k) ==> {
            &&& 0 <= k < devices@.len()
            &&& is_bot_id(devices@[k as int].vid, devices@[k as int].pid)
            &&& forall|j: int|
                0 <= j < k ==> !is_bot_id((#[trigger] devices@[j]).vid, devices@[j].pid)
        },
        r matches Err(e) ==> {
            &&& e is DeviceNotFound
            &&& forall|j: int|
                0 <= j < devices@.len() ==> !is_bot_id(
                    (#[trigger] devices@[j]).vid,
                    devices@[j].pid,
                )
        },
{
    match find_device(devices) {
        Some(k) => Ok(k),
        None => Err(crate::error::BotError::DeviceNotFound),
    }
}

/// The lowercase hex character of a value below 16.
pub open spec fn hex_digit(d: int) -> char {
    if d == 0 {
        '0'
    } else if d == 1 {
        '1'
    } else if d == 2 {
        '2'
    } else if d == 3 {
        '3'
    } else if d == 4 {
        '4'
    } else if d == 5 {
        '5'
    } else if d == 6 {
        '6'
    } else if d == 7 {
        '7'
    } else if d == 8 {
        '8'
    } else if d == 9 {
        '9'
    } else if d == 10 {
        'a'
    } else if d == 11 {
        'b'
    } else if d == 12 {
        'c'
    } else if d == 13 {
        'd'
    } else if d == 14 {
        'e'
    } else {
        'f'
    }
}

/// The four lowercase hex characters of a 16-bit value, most
/// significant first.
pub open spec fn hex4(v: u16) -> Seq<char> {
    seq![
        hex_digit((v >> 12) as int),
        hex_digit(((v >> 8) & 0xf) as int),
        hex_digit(((v >> 4) & 0xf) as int),
        hex_digit((v & 0xf) as int),
    ]
}

/// A device identity rendered as `vvvv:pppp`, lowercase hex.
pub open spec fn device_id_chars(vid: u16, pid: u16) -> Seq<char> {
    hex4(vid) + seq![':'] + hex4(pid)
}

/// The one-character string of a hex digit.
fn hex_digit_str(d: u16) -> (r: &'static str)
    requires
        d < 16,
    ensures
        r@ == seq![hex_digit(d as int)],
{
    proof {
        reveal_strlit("0");
        reveal_strlit("1");
        reveal_strlit("2");
        reveal_strlit("3");
        reveal_strlit("4");
        reveal_strlit("5");
        reveal_strlit("6");
        reveal_strlit("7");
        reveal_strlit("8");
        reveal_strlit("9");
        reveal_strlit("a");
        reveal_strlit("b");
        reveal_strlit("c");
        reveal_strlit("d");
        reveal_strlit("e");
        reveal_strlit("f");
    }
    let r: &'static str = if d == 0 {
        "0"
    } else if d == 1 {
        "1"
    } else if d == 2 {
        "2"
    } else if d == 3 {
        "3"
    } else if d == 4 {
        "4"
    } else if d == 5 {
        "5"
    } else if d == 6 {
        "6"
    } else if d == 7 {
        "7"
    } else if d == 8 {
        "8"
    } else if d == 9 {
        "9"
    } else if d == 10 {
        "a"
    } else if d == 11 {
        "b"
    } else if d == 12 {
        "c"
    } else if d == 13 {
        "d"
    } else if d == 14 {
        "e"
    } else {
        "f"
    };
    proof {
        assert(r@ =~= seq![hex_digit(d as int)]);
    }
    r
}

/// Renders a device identity as `vvvv:pppp`, lowercase hex.
pub fn format_device_id(vid: u16, pid: u16) -> (r: String)
    ensures
        r@ == device_id_chars(vid, pid),
{
    proof {
        reveal_strlit(":");
        assert((vid >> 12) < 16 && ((vid >> 8) & 0xf) < 16 && ((vid >> 4) & 0xf) < 16 && (vid
            & 0xf) < 16) by (bit_vector);
        assert((pid >> 12) < 16 && ((pid >> 8) & 0xf) < 16 && ((pid >> 4) & 0xf) < 16 && (pid
            & 0xf) < 16) by (bit_vector);
    }
    let mut s = String::new();
    s.append(hex_digit_str(vid >> 12));
    s.append(hex_digit_str((vid >> 8) & 0xf));
    s.append(hex_digit_str((vid >> 4) & 0xf));
    s.append(hex_digit_str(vid & 0xf));
    s.append(":");
    s.append(hex_digit_str(pid >> 12));
    s.append(hex_digit_str((pid >> 8) & 0xf));
    s.append(hex_digit_str((pid >> 4) & 0xf));
    s.append(hex_digit_str(pid & 0xf));
    proof {
        assert(s@ =~= device_id_chars(vid, pid));
    }
    s
}

/// Relies on rusb's enumeration: `Context::new`, `UsbContext::devices`
/// and each device's `device_descriptor`, which reports its vendor and
/// product ids.  What is attached depends on the machine, so nothing
/// is promised of the list.
#[verifier::external_body]
fn list_device_ids() -> (r: Vec<(u16, u16)>)
{
    let ctx = match rusb::Context::new() {
        Ok(c) => c,
        Err(_) => return Vec::new(),
    };
    let list = match rusb::UsbContext::devices(&ctx) {
        Ok(l) => l,
        Err(_) => return Vec::new(),
    };
    list.iter()
        .filter_map(|d| d.device_descriptor().ok().map(|x| (x.vendor_id(), x.product_id())))
        .collect()
}

/// Lists the identities of the attached USB devices.  Which devices
/// appear depends on the machine; each entry's text renders its own
/// identity.
pub fn scan_devices() -> (r: Vec<DeviceInfo>)
    ensures
        forall|k: int|
            0 <= k < r@.len() ==> (#[trigger] r@[k]).info@ == device_id_chars(r@[k].vid, r@[k].pid),
{
    let ids = list_device_ids();
    let mut out: Vec<DeviceInfo> = Vec::new();
    let mut k: usize = 0;
    while k < ids.len()
        invariant
            k <= ids@.len(),
            forall|j: int|
                0 <= j < out@.len() ==> (#[trigger] out@[j]).info@ == device_id_chars(
                    out@[j].vid,
                    out@[j].pid,
                ),
        decreases ids@.len() - k,
    {
        let (vid, pid) = ids[k];
        let info = format_device_id(vid, pid);
        out.push(DeviceInfo { vid, pid, info });
        k = k + 1;
    }
    out
}

/// Whether some attached device carries the controller's identity.
/// The answer depends on the machine; it is true exactly when the
/// enumeration this call made listed a matching device.
pub fn is_electron_bot_present() -> (r: bool) {
    let devices = scan_devices();
    find_device(&devices).is_some()
}

} // verus!
