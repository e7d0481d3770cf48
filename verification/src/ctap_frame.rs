//! The tunnel frame exchanged between the remote CTAP service and the local
//! authenticator driver.
use vstd::prelude::*;

verus! {

/// A CTAP frame on the RustDesk tunnel.
#[derive(Debug, Clone)]
pub struct CtapFrame {
    /// CTAPHID command byte (0x10 for CBOR, 0x11 for CANCEL).
    pub command: u32,
    /// Raw CTAP2 CBOR data (no CTAPHID framing).
    pub payload: Vec<u8>,
    /// false = request (remote to local), true = response (local to remote).
    pub is_response: bool,
    /// Non-zero if this is an error response.
    pub error_code: u32,
}

/// The value of a tunnel frame.
pub struct FrameView {
    pub command: u32,
    pub payload: Seq<u8>,
    pub is_response: bool,
    pub error_code: u32,
}

impl View for CtapFrame {
    type V = FrameView;

    open spec fn view(&self) -> FrameView {
        FrameView {
            command: self.command,
            payload: self.payload@,
            is_response: self.is_response,
            error_code: self.error_code,
        }
    }
}

} // verus!
