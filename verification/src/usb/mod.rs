//! USB passthrough bookkeeping: accessory identities, the `vid:pid[:serial]`
//! selector, the attach registry, and matching against the guest's USB
//! listing.

use vstd::prelude::*;

pub mod annotate;
pub mod manager;
pub mod registry;
pub mod selector;

verus! {

/// Identity of a host USB accessory granted to the daemon.
#[derive(Debug, Clone)]
pub struct UsbDeviceInfo {
    /// IORegistry entry ID, stable for the duration of a connection.
    pub registry_id: u64,
    /// USB vendor ID (`idVendor`).
    pub vendor_id: u16,
    /// USB product ID (`idProduct`).
    pub product_id: u16,
    /// Product name, when the host reports one.
    pub name: Option<String>,
    /// Serial number, when the host reports one.
    pub serial: Option<String>,
}

/// Point-in-time view of one granted accessory.
#[derive(Debug, Clone)]
pub struct UsbDeviceSnapshot {
    /// The accessory's identity.
    pub info: UsbDeviceInfo,
    /// Whether the accessory is attached to the System VM.
    pub attached: bool,
    /// Guest device node (`/dev/bus/usb/BBB/DDD`) when attached and matched
    /// against the guest USB listing (see [`annotate_guest_paths`]).
    pub guest_path: Option<String>,
}

/// One USB device as enumerated inside the guest.
#[derive(Debug, Clone)]
pub struct GuestUsbDevice {
    /// USB vendor ID (`idVendor`).
    pub vendor_id: u16,
    /// USB product ID (`idProduct`).
    pub product_id: u16,
    /// Serial number, when the device reports one.
    pub serial: Option<String>,
    /// Guest device node, e.g. `/dev/bus/usb/001/002`.
    pub dev_path: String,
}

/// The text of an optional string.
pub open spec fn opt_text(o: Option<String>) -> Option<Seq<char>> {
    match o {
        Some(s) => Some(s@),
        None => None,
    }
}

} // verus!
