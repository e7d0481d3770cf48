//! Windows VHF (Virtual HID Framework) driver support.
use vstd::prelude::*;

verus! {

/// Whether the RustDesk VHF driver can serve the virtual FIDO device: it can
/// exactly when the driver is installed and running, which the caller probes
/// (through SetupDi or WMI) and passes as `installed`.
pub fn is_driver_available(installed: bool) -> (r: bool)
    ensures
        r == installed,
{
    installed
}

} // verus!
