//! Laws that span the remote service, the local relay and the companion.
use vstd::prelude::*;
use crate::ctap_hid::{CTAPHID_CBOR, HidMessage, spec_allowed_ctap2_payload};
use crate::ctap_local::spec_relay_frame;
use crate::ctap_service::{client_answer_message, init_response_message};
use crate::fido_relay::{RelayResultView, spec_init_response_cid};
use crate::ws_server::{
    CompanionAction, default_origins, relay_outcome_matches, spec_origin_allowed,
};

verus! {

/// Channel allocation agrees on both ends: the INIT response that the
/// remote service builds for a nonce is accepted by the relay's check of
/// INIT responses for that nonce, which takes from it the allocated channel.
pub proof fn law_init_response_accepted(nonce: Seq<u8>, cid: u32, capabilities: u8)
    requires
        nonce.len() == 8,
    ensures
        spec_init_response_cid(Some(init_response_message(nonce, cid, capabilities)), nonce) == Ok::<
            u32,
            crate::fido_relay::ChannelError,
        >(cid),
{
    let m = init_response_message(nonce, cid, capabilities);
    assert(m.payload.take(8) =~= nonce);
    let b = crate::ctap_hid::u32_be_bytes(cid);
    assert(m.payload[8] == b[0]);
    assert(m.payload[9] == b[1]);
    assert(m.payload[10] == b[2]);
    assert(m.payload[11] == b[3]);
}

/// What the browser gets back for a relay: the local driver's response frame
/// for the relay's outcome, answered by the remote service on the active
/// channel, is the key's CBOR response itself, or a one-byte CBOR status
/// holding the low byte of a non-zero error code.
pub proof fn law_relay_outcome_reaches_browser(cid: u32, r: RelayResultView)
    ensures
        client_answer_message(cid, spec_relay_frame(r)) == (match r {
            RelayResultView::Response(p) => HidMessage { cid, cmd: CTAPHID_CBOR, payload: p },
            RelayResultView::Error(c) => if c != 0 {
                HidMessage { cid, cmd: CTAPHID_CBOR, payload: seq![(c & 0xFF) as u8] }
            } else {
                HidMessage { cid, cmd: CTAPHID_CBOR, payload: Seq::empty() }
            },
        }),
{
}

/// The companion relays only allowed CTAP2 commands: whenever it decides to
/// relay a request to the physical key, whatever its command number, the
/// decoded payload's first byte is on the allow list.
pub proof fn law_companion_relays_only_allowed(
    id: String,
    command: u32,
    payload: Seq<char>,
    r: Result<CompanionAction, crate::ws_server::CompanionError>,
)
    requires
        relay_outcome_matches(id, command, payload, r),
        r matches Ok(CompanionAction::Relay { .. }),
    ensures
        r matches Ok(CompanionAction::Relay { payload: p, .. }) && spec_allowed_ctap2_payload(p@),
{
}

/// Only allowed origins open a session: an Origin header that is none of the
/// allowed origins, nor one of them followed by a port (such as an allowed
/// origin followed by `.evil.com`), is refused.
pub proof fn law_unlisted_origin_refused(origin: Seq<char>, allowed: Seq<Seq<char>>)
    requires
        forall|i: int| 0 <= i < allowed.len() ==> !crate::ws_server::origin_matches(#[trigger] allowed[i], origin),
    ensures
        !spec_origin_allowed(Some(origin), allowed),
{
}

/// The default origins always open a session: an Origin header that is one
/// of them, possibly followed by a port, is accepted by every server,
/// whatever origins were added.
pub proof fn law_default_origins_accepted(origin: Seq<char>, extra: Seq<Seq<char>>, i: int)
    requires
        0 <= i < default_origins().len(),
        crate::ws_server::origin_matches(default_origins()[i], origin),
    ensures
        spec_origin_allowed(Some(origin), default_origins() + extra),
{
    assert((default_origins() + extra)[i] == default_origins()[i]);
}

} // verus!
