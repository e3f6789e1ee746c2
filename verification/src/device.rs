//! The devices that the device tree describes.

use vstd::prelude::*;

verus! {

/// The class of a device.
#[derive(Debug, Clone, Copy, PartialEq, Eq, Hash, Structural)]
pub enum DeviceType {
    /// A virtual-I/O device, with its kind.
    Virtio(u32),
    /// The serial console.
    Serial,
}

/// Where a device sits in the guest's address space, and its interrupt line.
#[derive(Debug, Clone, Copy, PartialEq, Eq, Structural)]
pub struct MMIODeviceInfo {
    /// Guest physical base address of the device's window.
    pub addr: u64,
    /// Length of the window.
    pub len: u64,
    /// The interrupt line, if the device has one.
    pub irq: Option<u32>,
}

/// A device as the device tree sees it: its class and its placement.
pub type Device = (DeviceType, MMIODeviceInfo);

} // verus!
