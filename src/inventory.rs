//! Which entries of the block device inventory are offered as targets.

use vstd::prelude::*;

verus! {

/// A removable or USB device offered as a target.
#[derive(Clone, Debug)]
pub struct BlockDevice {
    pub name: String,
    pub path: String,
    pub size: String,
    pub model: Option<String>,
    pub vendor: Option<String>,
    pub serial: Option<String>,
    pub transport: Option<String>,
    pub removable: bool,
}

/// One top-level entry of the inventory, as the inventory tool gives it.
#[derive(Clone, Debug)]
pub struct DeviceRecord {
    pub name: Option<String>,
    pub size: Option<String>,
    /// The removable flag, 1 when removable.
    pub rm: Option<u64>,
    pub tran: Option<String>,
    pub model: Option<String>,
    pub vendor: Option<String>,
    pub serial: Option<String>,
}

/// The transport is `usb`, in any ASCII case.
pub open spec fn is_usb(t: Seq<char>) -> bool {
    t.len() == 3 && (t[0] == 'u' || t[0] == 'U') && (t[1] == 's' || t[1] == 'S') && (t[2] == 'b'
        || t[2] == 'B')
}

/// The entry is offered: removable, or attached over USB.
pub open spec fn is_offered(rec: DeviceRecord) -> bool {
    rec.rm == Some(1u64) || match rec.tran {
        Some(t) => is_usb(t@),
        None => false,
    }
}

pub open spec fn text_or_empty(s: Option<String>) -> Seq<char> {
    match s {
        Some(t) => t@,
        None => Seq::empty(),
    }
}

/// `"/dev/"`
pub open spec fn dev_dir() -> Seq<char> {
    seq!['/', 'd', 'e', 'v', '/']
}

fn usb_transport(t: &str) -> (r: bool)
    ensures
        r == is_usb(t@),
{
    if t.unicode_len() != 3 {
        return false;
    }
    let (a, b, c) = (t.get_char(0), t.get_char(1), t.get_char(2));
    (a == 'u' || a == 'U') && (b == 's' || b == 'S') && (c == 'b' || c == 'B')
}

fn owned_or_empty(s: &Option<String>) -> (r: String)
    ensures
        r@ == text_or_empty(*s),
{
    match s {
        Some(t) => t.clone(),
        None => String::new(),
    }
}

/// The target offered for an inventory entry: `None` unless it is
/// removable or attached over USB. Its path is `/dev/` and its name; a
/// missing name or size reads as empty.
pub fn listed_device(rec: &DeviceRecord) -> (r: Option<BlockDevice>)
    ensures
        r is Some <==> is_offered(*rec),
        r matches Some(d) ==> d.name@ == text_or_empty(rec.name) && d.path@ == dev_dir()
            + text_or_empty(rec.name) && d.size@ == text_or_empty(rec.size) && d.removable == (
        rec.rm == Some(1u64)) && d.model == rec.model && d.vendor == rec.vendor && d.serial
            == rec.serial && d.transport == rec.tran,
{
    let removable = match rec.rm {
        Some(v) => v == 1,
        None => false,
    };
    let usb = match &rec.tran {
        Some(t) => usb_transport(t.as_str()),
        None => false,
    };
    if !(removable || usb) {
        return None;
    }
    let name = owned_or_empty(&rec.name);
    let mut path = "/dev/".to_owned();
    proof {
        reveal_strlit("/dev/");
    }
    path.append(name.as_str());
    Some(BlockDevice {
        name,
        path,
        size: owned_or_empty(&rec.size),
        model: rec.model.clone(),
        vendor: rec.vendor.clone(),
        serial: rec.serial.clone(),
        transport: rec.tran.clone(),
        removable,
    })
}

} // verus!
