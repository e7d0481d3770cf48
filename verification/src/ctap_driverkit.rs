//! macOS DriverKit extension support.
use vstd::prelude::*;

verus! {

/// Whether the RustDesk DriverKit extension can serve the virtual FIDO
/// device: it can exactly when the extension is installed and approved,
/// which the caller probes (through OSSystemExtensionManager or IOKit) and
/// passes as `approved`.
pub fn is_driver_available(approved: bool) -> (r: bool)
    ensures
        r == approved,
{
    approved
}

} // verus!
