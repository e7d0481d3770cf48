//! The virtual FIDO HID device: its report descriptor, its USB IDs, and on
//! which platforms it can be created.
use vstd::prelude::*;

verus! {

/// FIDO HID report descriptor: usage page 0xF1D0 (FIDO Alliance), usage 0x01
/// (U2F authenticator device), 64-byte input and output reports, no report ID.
pub const FIDO_HID_REPORT_DESCRIPTOR: [u8; 34] = [
    0x06, 0xD0, 0xF1, // Usage Page (FIDO Alliance)
    0x09, 0x01, // Usage (U2F Authenticator Device)
    0xA1, 0x01, // Collection (Application)
    0x09, 0x20, // Usage (Input Report Data)
    0x15, 0x00, // Logical Minimum (0)
    0x26, 0xFF, 0x00, // Logical Maximum (255)
    0x75, 0x08, // Report Size (8)
    0x95, 0x40, // Report Count (64)
    0x81, 0x02, // Input (Data, Var, Abs)
    0x09, 0x21, // Usage (Output Report Data)
    0x15, 0x00, // Logical Minimum (0)
    0x26, 0xFF, 0x00, // Logical Maximum (255)
    0x75, 0x08, // Report Size (8)
    0x95, 0x40, // Report Count (64)
    0x91, 0x02, // Output (Data, Var, Abs)
    0xC0, // End Collection
];

/// USB vendor ID of the virtual FIDO device (pid.codes open-source VID).
pub const VIRTUAL_FIDO_VID: u16 = 0x1209;

/// USB product ID of the virtual FIDO device.
pub const VIRTUAL_FIDO_PID: u16 = 0xF1D0;

/// The platform the service runs on.
#[derive(Debug, Clone, Copy)]
pub enum Platform {
    Linux,
    Windows,
    MacOs,
    Other,
}

/// What the caller found out about the platform's virtual HID support.
#[derive(Debug, Clone, Copy)]
pub struct PlatformProbe {
    /// Linux: whether `/dev/uhid` exists.
    pub uhid_node_exists: bool,
    /// Windows: whether the RustDesk VHF driver is installed and running.
    pub vhf_driver_installed: bool,
    /// macOS: whether the RustDesk DriverKit extension is installed and approved.
    pub driverkit_extension_approved: bool,
}

/// Whether the virtual FIDO device can be created: on Linux when the uhid
/// node exists, on Windows when the VHF driver is available, on macOS when
/// the DriverKit extension is available, and nowhere else.
pub open spec fn spec_virtual_device_available(platform: Platform, probe: PlatformProbe) -> bool {
    match platform {
        Platform::Linux => probe.uhid_node_exists,
        Platform::Windows => probe.vhf_driver_installed,
        Platform::MacOs => probe.driverkit_extension_approved,
        Platform::Other => false,
    }
}

/// Decide whether the virtual FIDO device can be created on `platform`.
pub fn is_virtual_device_available(platform: Platform, probe: PlatformProbe) -> (r: bool)
    ensures
        r == spec_virtual_device_available(platform, probe),
{
    match platform {
        Platform::Linux => probe.uhid_node_exists,
        Platform::Windows => crate::ctap_vhf::is_driver_available(probe.vhf_driver_installed),
        Platform::MacOs => crate::ctap_driverkit::is_driver_available(probe.driverkit_extension_approved),
        Platform::Other => false,
    }
}

} // verus!
