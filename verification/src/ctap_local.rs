//! The local authenticator driver's answers to the remote service: the
//! tunnel frame that carries the outcome of a relay.
use vstd::prelude::*;
use crate::ctap_frame::{CtapFrame, FrameView};
use crate::ctap_hid::CTAPHID_CBOR;
use crate::fido_relay::{CTAP1_ERR_OTHER, CtapRelayResult, RelayResultView};

verus! {

/// The response frame for the outcome of a relay: the authenticator's CBOR
/// payload with error code 0, or an empty payload with the error code.
pub open spec fn spec_relay_frame(r: RelayResultView) -> FrameView {
    match r {
        RelayResultView::Response(p) => FrameView { command: CTAPHID_CBOR as u32, payload: p, is_response: true, error_code: 0 },
        RelayResultView::Error(c) => FrameView {
            command: CTAPHID_CBOR as u32,
            payload: Seq::empty(),
            is_response: true,
            error_code: c,
        },
    }
}

/// The response frame that carries the outcome of a relay back to the
/// remote service.
pub fn relay_response_frame(result: CtapRelayResult) -> (r: CtapFrame)
    ensures
        r@ == spec_relay_frame(result@),
{
    match result {
        CtapRelayResult::Response(payload) => CtapFrame {
            command: CTAPHID_CBOR as u32,
            payload,
            is_response: true,
            error_code: 0,
        },
        CtapRelayResult::Error(code) => CtapFrame {
            command: CTAPHID_CBOR as u32,
            payload: Vec::new(),
            is_response: true,
            error_code: code,
        },
    }
}

/// The response frame sent when the relay itself failed to run.
pub fn relay_failure_frame() -> (r: CtapFrame)
    ensures
        r@ == spec_relay_frame(RelayResultView::Error(CTAP1_ERR_OTHER)),
{
    relay_response_frame(CtapRelayResult::Error(CTAP1_ERR_OTHER))
}

} // verus!
