//! Device events from udev: which devices are watched, and what is done
//! about their events.

pub mod handler;

use vstd::prelude::*;
use vstd::string::*;

verus! {

/// The (subsystem, device type) pairs that the monitor watches: USB
/// devices, block disks and power supplies, in this order.
pub open spec fn watched_devices() -> Seq<(Seq<char>, Seq<char>)> {
    seq![("usb"@, "usb_device"@), ("block"@, "disk"@), ("power_supply"@, "power_supply"@)]
}

/// The (subsystem, device type) pairs to match in the udev monitor.
pub fn monitored_devices() -> (v: Vec<(String, String)>)
    ensures
        v.deep_view() == watched_devices(),
{
    let mut v: Vec<(String, String)> = Vec::new();
    v.push((String::from_str("usb"), String::from_str("usb_device")));
    v.push((String::from_str("block"), String::from_str("disk")));
    v.push((String::from_str("power_supply"), String::from_str("power_supply")));
    assert(v.deep_view() =~= watched_devices());
    v
}

} // verus!
