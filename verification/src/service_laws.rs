//! Laws of the remote CTAP service.
use vstd::prelude::*;
use crate::ctap_hid::{
    BROADCAST_CID, CTAPHID_CBOR, HidMessage, spec_allowed_ctap2_payload, spec_feed,
};
use crate::ctap_hid::ERR_INVALID_LEN;
use crate::ctap_service::{
    INIT_CAPABILITIES, error_message, init_response_message, spec_handle_init,
    ActionView, ServiceState, next_channel, send_message, service_state_wf, spec_client_response,
    spec_handle_report, spec_keepalive_tick,
};
use crate::framing_laws::{feed_all, law_feed_keeps_state_reachable, lemma_feed_all_len};

verus! {

/// Whether an action forwards a CBOR request to the client.
pub open spec fn is_cbor_request(a: ActionView) -> bool {
    match a {
        ActionView::Peer(f) => f.command == CTAPHID_CBOR as u32,
        ActionView::Report(_) => false,
    }
}

/// Whether an action forwards a CBOR request whose CTAP2 command is not on
/// the allow list.
pub open spec fn is_disallowed_request(a: ActionView) -> bool {
    match a {
        ActionView::Peer(f) => f.command == CTAPHID_CBOR as u32 && !spec_allowed_ctap2_payload(f.payload),
        ActionView::Report(_) => false,
    }
}

/// No action in `acts` forwards a CBOR request whose CTAP2 command is not on
/// the allow list.
pub open spec fn forwards_only_allowed(acts: Seq<ActionView>) -> bool {
    forall|i: int| 0 <= i < acts.len() ==> !is_disallowed_request(#[trigger] acts[i])
}

/// No action in `acts` forwards anything to the client.
pub open spec fn forwards_nothing(acts: Seq<ActionView>) -> bool {
    forall|i: int| 0 <= i < acts.len() ==> !(#[trigger] acts[i] is Peer)
}

proof fn lemma_send_message_forwards_nothing(m: HidMessage)
    ensures
        forwards_nothing(send_message(m)),
{
}

/// Only allowed CTAP2 commands cross the tunnel: whatever report the browser
/// writes, the service never forwards a CBOR request to the client whose
/// first byte is not MakeCredential, GetAssertion, GetInfo, ClientPIN,
/// GetNextAssertion or Selection (so authenticatorReset never reaches the
/// physical key).
pub proof fn law_only_allowed_commands_forwarded(st: ServiceState, r: Seq<u8>, now_ms: u64)
    ensures
        forwards_only_allowed(spec_handle_report(st, r, now_ms).1),
{
    let (a1, out) = spec_feed(st.reassembly, r);
    match out {
        Ok(Some(msg)) => {
            lemma_send_message_forwards_nothing(msg);
        },
        _ => {},
    }
}

/// One transaction at a time: while a CBOR request waits for the client, no
/// report from the browser makes the service forward another CBOR request.
pub proof fn law_busy_service_forwards_no_request(st: ServiceState, r: Seq<u8>, now_ms: u64)
    requires
        st.active_cid is Some,
    ensures
        forall|i: int|
            0 <= i < spec_handle_report(st, r, now_ms).1.len() ==> !is_cbor_request(
                #[trigger] spec_handle_report(st, r, now_ms).1[i],
            ),
{
    let (a1, out) = spec_feed(st.reassembly, r);
    match out {
        Ok(Some(msg)) => {
            lemma_send_message_forwards_nothing(msg);
        },
        _ => {},
    }
}

/// Keepalive ticks and client responses never forward anything to the client.
pub proof fn law_ticks_and_responses_forward_nothing(
    st: ServiceState,
    now_ms: u64,
    timeout_ms: u64,
    f: crate::ctap_frame::FrameView,
)
    ensures
        forwards_nothing(spec_keepalive_tick(st, now_ms, timeout_ms).1),
        spec_client_response(st, f) matches Ok((_, acts)) ==> forwards_nothing(acts),
{
    if let Some(cid) = st.active_cid {
        lemma_send_message_forwards_nothing(crate::ctap_service::error_message(cid, crate::ctap_hid::ERR_MSG_TIMEOUT));
        lemma_send_message_forwards_nothing(crate::ctap_service::keepalive_message(cid, crate::ctap_hid::STATUS_UPNEEDED));
        lemma_send_message_forwards_nothing(crate::ctap_service::client_answer_message(cid, f));
    }
}

/// Channel allocation never hands out channel 0 or the broadcast channel:
/// every transition of the service from a reachable state reaches a
/// reachable state, and the next channel ID is never 0 nor BROADCAST_CID.
pub proof fn law_service_keeps_state_reachable(
    st: ServiceState,
    r: Seq<u8>,
    now_ms: u64,
    timeout_ms: u64,
    f: crate::ctap_frame::FrameView,
)
    requires
        service_state_wf(st),
        r.len() == 64,
    ensures
        service_state_wf(spec_handle_report(st, r, now_ms).0),
        service_state_wf(spec_keepalive_tick(st, now_ms, timeout_ms).0),
        spec_client_response(st, f) matches Ok((st2, _)) ==> service_state_wf(st2),
        next_channel(st.next_cid) != 0,
        next_channel(st.next_cid) != BROADCAST_CID,
{
    law_feed_keeps_state_reachable(st.reassembly, r);
}

/// A transaction that the client has not answered within the client timeout
/// ends, at the next keepalive tick, with ERR_MSG_TIMEOUT on its channel, and
/// the service waits for nothing after it; before that, every tick sends a
/// KEEPALIVE(UPNEEDED) on its channel. The packet timeout that a tick checks
/// first leaves the waiting transaction as it is.
pub proof fn law_timeout_ends_transaction(st: ServiceState, now_ms: u64, timeout_ms: u64)
    requires
        st.active_cid is Some,
        st.forwarded_at is Some,
    ensures
        crate::ctap_service::spec_packet_timeout(st, now_ms).0.active_cid == st.active_cid,
        crate::ctap_service::spec_packet_timeout(st, now_ms).0.forwarded_at == st.forwarded_at,
        crate::ctap_service::overdue(st.forwarded_at.unwrap(), now_ms, timeout_ms) ==> {
            &&& spec_keepalive_tick(st, now_ms, timeout_ms).0.active_cid is None
            &&& crate::ctap_service::spec_transaction_tick(st, now_ms, timeout_ms).1 == send_message(
                crate::ctap_service::error_message(st.active_cid.unwrap(), crate::ctap_hid::ERR_MSG_TIMEOUT),
            )
        },
        !crate::ctap_service::overdue(st.forwarded_at.unwrap(), now_ms, timeout_ms) ==> {
            &&& spec_keepalive_tick(st, now_ms, timeout_ms).0.active_cid == st.active_cid
            &&& crate::ctap_service::spec_transaction_tick(st, now_ms, timeout_ms) == (
                st,
                send_message(
                    crate::ctap_service::keepalive_message(st.active_cid.unwrap(), crate::ctap_hid::STATUS_UPNEEDED),
                ),
            )
        },
{
}

/// Packet timeout: a message whose next report has not arrived within
/// PACKET_TIMEOUT_MS of the last one is abandoned at the next keepalive tick
/// or report, whichever comes first, which answers ERR_MSG_TIMEOUT on the
/// message's channel first (a late report is then taken in as the start of
/// something new); before that, ticks leave the message in progress and
/// reports are taken in as they come.
pub proof fn law_stalled_message_times_out(st: ServiceState, r: Seq<u8>, now_ms: u64, timeout_ms: u64)
    requires
        st.reassembly is Assembling,
        st.packet_at is Some,
    ensures
        crate::ctap_service::overdue(st.packet_at.unwrap(), now_ms, crate::ctap_service::PACKET_TIMEOUT_MS) ==> {
            let fresh = crate::ctap_service::spec_accept_report(
                ServiceState { reassembly: crate::ctap_hid::AsmState::Idle, packet_at: None, ..st },
                r,
                now_ms,
            );
            spec_handle_report(st, r, now_ms) == (
                fresh.0,
                send_message(crate::ctap_service::error_message(st.reassembly->cid, crate::ctap_hid::ERR_MSG_TIMEOUT)) + fresh.1,
            )
        },
        !crate::ctap_service::overdue(st.packet_at.unwrap(), now_ms, crate::ctap_service::PACKET_TIMEOUT_MS)
            ==> spec_handle_report(st, r, now_ms) == crate::ctap_service::spec_accept_report(st, r, now_ms),
        crate::ctap_service::overdue(st.packet_at.unwrap(), now_ms, crate::ctap_service::PACKET_TIMEOUT_MS) ==> {
            &&& spec_keepalive_tick(st, now_ms, timeout_ms).0.reassembly is Idle
            &&& spec_keepalive_tick(st, now_ms, timeout_ms).1.take(
                send_message(crate::ctap_service::error_message(st.reassembly->cid, crate::ctap_hid::ERR_MSG_TIMEOUT)).len() as int,
            ) == send_message(crate::ctap_service::error_message(st.reassembly->cid, crate::ctap_hid::ERR_MSG_TIMEOUT))
        },
        !crate::ctap_service::overdue(st.packet_at.unwrap(), now_ms, crate::ctap_service::PACKET_TIMEOUT_MS) ==> {
            &&& crate::ctap_service::spec_packet_timeout(st, now_ms) == (st, Seq::<ActionView>::empty())
            &&& (st.active_cid is None ==> spec_keepalive_tick(st, now_ms, timeout_ms) == (st, Seq::<ActionView>::empty()))
        },
{
    let (st1, a1) = crate::ctap_service::spec_packet_timeout(st, now_ms);
    let (st2, a2) = crate::ctap_service::spec_transaction_tick(st1, now_ms, timeout_ms);
    assert((a1 + a2).take(a1.len() as int) =~= a1);
    assert(a1 + Seq::<ActionView>::empty() =~= a1);
}

/// Forwarding a CBOR request starts the wait for the client: afterwards a
/// transaction is active on the request's channel, timed from now.
pub proof fn law_forwarding_starts_wait(st: ServiceState, r: Seq<u8>, now_ms: u64, i: int)
    requires
        0 <= i < spec_handle_report(st, r, now_ms).1.len(),
        is_cbor_request(spec_handle_report(st, r, now_ms).1[i]),
    ensures
        spec_handle_report(st, r, now_ms).0.active_cid is Some,
        spec_handle_report(st, r, now_ms).0.forwarded_at == Some(now_ms),
{
    let (a1, out) = spec_feed(st.reassembly, r);
    match out {
        Ok(Some(msg)) => {
            lemma_send_message_forwards_nothing(msg);
            lemma_send_message_forwards_nothing(crate::ctap_service::error_message(msg.cid, crate::ctap_hid::ERR_INVALID_LEN));
            lemma_send_message_forwards_nothing(crate::ctap_service::error_message(msg.cid, crate::ctap_hid::ERR_INVALID_CMD));
            lemma_send_message_forwards_nothing(crate::ctap_service::error_message(msg.cid, crate::ctap_hid::ERR_CHANNEL_BUSY));
            lemma_send_message_forwards_nothing(
                crate::ctap_service::init_response_message(msg.payload.take(8), st.next_cid, crate::ctap_service::INIT_CAPABILITIES),
            );
        },
        _ => {
            lemma_send_message_forwards_nothing(crate::ctap_service::error_message(crate::ctap_hid::report_cid(r), crate::ctap_hid::ERR_INVALID_SEQ));
        },
    }
}
/// Channel allocation: a complete INIT request with an 8-byte nonce is
/// answered with an INIT response that echoes the nonce and allocates the
/// service's next channel ID (never 0 nor the broadcast channel), and the
/// next ID becomes the following one, wrapping to 1 before the broadcast
/// channel. A shorter nonce is answered with ERR_INVALID_LEN and allocates
/// nothing.
pub proof fn law_init_allocates_channel(st: ServiceState, msg: HidMessage)
    requires
        service_state_wf(st),
    ensures
        msg.payload.len() >= 8 ==> {
            &&& spec_handle_init(st, msg) == (
                ServiceState { next_cid: next_channel(st.next_cid), ..st },
                send_message(init_response_message(msg.payload.take(8), st.next_cid, INIT_CAPABILITIES)),
            )
            &&& st.next_cid != 0
            &&& st.next_cid != BROADCAST_CID
            &&& next_channel(st.next_cid) == (if st.next_cid + 1 == BROADCAST_CID { 1 } else { st.next_cid + 1 })
            &&& service_state_wf(spec_handle_init(st, msg).0)
        },
        msg.payload.len() < 8 ==> spec_handle_init(st, msg) == (
            st,
            send_message(error_message(msg.cid, ERR_INVALID_LEN)),
        ),
{
}

/// A framing error is answered on the channel of the report that caused
/// it: whatever the reassembler held, when feeding report `r` fails, taking
/// it in writes exactly the reports of ERROR(ERR_INVALID_SEQ) on the channel
/// in the report's first four bytes (big-endian), forwards nothing, and
/// leaves the reassembler idle; the service's handling of `r` does the same
/// after whatever the packet timeout answered.
pub proof fn law_framing_error_answered_on_report_channel(st: ServiceState, r: Seq<u8>, now_ms: u64)
    requires
        r.len() == 64,
    ensures
        spec_feed(st.reassembly, r).1 is Err ==> {
            &&& crate::ctap_service::spec_accept_report(st, r, now_ms).1 == send_message(
                HidMessage {
                    cid: crate::ctap_hid::be_u32(r[0], r[1], r[2], r[3]),
                    cmd: crate::ctap_hid::CTAPHID_ERROR,
                    payload: seq![crate::ctap_hid::ERR_INVALID_SEQ],
                },
            )
            &&& crate::ctap_service::spec_accept_report(st, r, now_ms).0.reassembly is Idle
            &&& forwards_nothing(crate::ctap_service::spec_accept_report(st, r, now_ms).1)
        },
        ({
            let (st0, a0) = crate::ctap_service::spec_packet_timeout(st, now_ms);
            spec_feed(st0.reassembly, r).1 is Err ==> spec_handle_report(st, r, now_ms).1 == a0 + send_message(
                HidMessage {
                    cid: crate::ctap_hid::be_u32(r[0], r[1], r[2], r[3]),
                    cmd: crate::ctap_hid::CTAPHID_ERROR,
                    payload: seq![crate::ctap_hid::ERR_INVALID_SEQ],
                },
            )
        }),
{
    crate::framing_laws::law_feed_error_or_message_leaves_idle(st.reassembly, r);
    lemma_send_message_forwards_nothing(error_message(crate::ctap_hid::report_cid(r), crate::ctap_hid::ERR_INVALID_SEQ));
}

/// Handling reports one after another, all at `now_ms`: the final state and
/// all the actions, in order.
pub open spec fn handle_all(st: ServiceState, rs: Seq<Seq<u8>>, now_ms: u64) -> (ServiceState, Seq<ActionView>)
    decreases rs.len(),
{
    if rs.len() == 0 {
        (st, Seq::empty())
    } else {
        let (s1, a1) = spec_handle_report(st, rs[0], now_ms);
        let (s2, a2) = handle_all(s1, rs.drop_first(), now_ms);
        (s2, a1 + a2)
    }
}

proof fn lemma_handle_all_quiet_until_message(st: ServiceState, rs: Seq<Seq<u8>>, now_ms: u64, msg: HidMessage)
    requires
        rs.len() >= 1,
        forall|i: int| 0 <= i < rs.len() ==> (#[trigger] rs[i]).len() == 64,
        st.reassembly is Idle || st.packet_at == Some(now_ms),
        forall|i: int| 0 <= i < rs.len() - 1 ==> #[trigger] feed_all(st.reassembly, rs).1[i] == Ok::<
            Option<HidMessage>,
            crate::ctap_hid::CtapHidError,
        >(None),
        feed_all(st.reassembly, rs).1[rs.len() - 1] == Ok::<Option<HidMessage>, crate::ctap_hid::CtapHidError>(
            Some(msg),
        ),
    ensures
        handle_all(st, rs, now_ms) == crate::ctap_service::spec_dispatch(
            ServiceState { reassembly: crate::ctap_hid::AsmState::Idle, packet_at: None, ..st },
            msg,
            now_ms,
        ),
    decreases rs.len(),
{
    let (s1, o) = spec_feed(st.reassembly, rs[0]);
    let tail = rs.drop_first();
    let (s2, os) = feed_all(s1, tail);
    lemma_feed_all_len(st.reassembly, rs);
    lemma_feed_all_len(s1, tail);
    assert(feed_all(st.reassembly, rs).1 == seq![o] + os);
    assert(feed_all(st.reassembly, rs).1[0] == o);
    assert(crate::ctap_service::spec_packet_timeout(st, now_ms) == (st, Seq::<ActionView>::empty()));
    if rs.len() == 1 {
        crate::framing_laws::law_feed_error_or_message_leaves_idle(st.reassembly, rs[0]);
        let (hs, ha) = spec_handle_report(st, rs[0], now_ms);
        assert(tail.len() == 0);
        assert(handle_all(hs, tail, now_ms) == (hs, Seq::<ActionView>::empty()));
        assert(ha + Seq::<ActionView>::empty() =~= ha);
        assert(Seq::<ActionView>::empty() + crate::ctap_service::spec_accept_report(st, rs[0], now_ms).1
            =~= crate::ctap_service::spec_accept_report(st, rs[0], now_ms).1);
    } else {
        let st1 = ServiceState {
            reassembly: s1,
            packet_at: if s1 is Assembling { Some(now_ms) } else { None },
            ..st
        };
        assert(spec_handle_report(st, rs[0], now_ms) == (st1, Seq::<ActionView>::empty() + Seq::<ActionView>::empty()));
        assert(Seq::<ActionView>::empty() + Seq::<ActionView>::empty() =~= Seq::<ActionView>::empty());
        assert forall|i: int| 0 <= i < tail.len() implies (#[trigger] tail[i]).len() == 64 by {
            assert(tail[i] == rs[i + 1]);
        }
        assert forall|i: int| 0 <= i < tail.len() - 1 implies #[trigger] feed_all(s1, tail).1[i] == Ok::<
            Option<HidMessage>,
            crate::ctap_hid::CtapHidError,
        >(None) by {
            assert(feed_all(st.reassembly, rs).1[i + 1] == os[i]);
        }
        assert(feed_all(st.reassembly, rs).1[rs.len() - 1] == os[tail.len() - 1]);
        lemma_handle_all_quiet_until_message(st1, tail, now_ms, msg);
        let (h2, a2) = handle_all(st1, tail, now_ms);
        assert(Seq::<ActionView>::empty() + a2 =~= a2);
    }
}

/// A forwarded CBOR request carries the whole reassembled payload: when an
/// idle service with no transaction waiting takes, one after another, the
/// reports of an allowed CBOR message (any length up to MAX_PAYLOAD_SIZE),
/// its only action is one request to the client with command CTAPHID_CBOR,
/// `is_response` false, no error code and exactly the message's payload, and
/// the transaction then waits on the message's channel.
pub proof fn law_forwarded_request_is_whole_message(st: ServiceState, m: HidMessage, now_ms: u64)
    requires
        st.reassembly is Idle,
        st.active_cid is None,
        m.cmd == CTAPHID_CBOR,
        spec_allowed_ctap2_payload(m.payload),
        m.payload.len() <= crate::ctap_hid::MAX_PAYLOAD_SIZE,
    ensures
        handle_all(st, crate::ctap_hid::fragment_packets(m), now_ms).1 == seq![
            ActionView::Peer(
                crate::ctap_frame::FrameView {
                    command: 0x10,
                    payload: m.payload,
                    is_response: false,
                    error_code: 0,
                },
            ),
        ],
        handle_all(st, crate::ctap_hid::fragment_packets(m), now_ms).0.active_cid == Some(m.cid),
        handle_all(st, crate::ctap_hid::fragment_packets(m), now_ms).0.forwarded_at == Some(now_ms),
{
    let ps = crate::ctap_hid::fragment_packets(m);
    crate::framing_laws::law_fragment_then_feed_round_trip(st.reassembly, m);
    let outs = crate::framing_laws::round_trip_outcomes(m);
    lemma_feed_all_len(st.reassembly, ps);
    assert forall|i: int| 0 <= i < ps.len() implies (#[trigger] ps[i]).len() == 64 by {
        assert(ps[i] == crate::ctap_hid::fragment_packet(m, i));
    }
    assert forall|i: int| 0 <= i < ps.len() - 1 implies #[trigger] feed_all(st.reassembly, ps).1[i] == Ok::<
        Option<HidMessage>,
        crate::ctap_hid::CtapHidError,
    >(None) by {
        assert(feed_all(st.reassembly, ps).1[i] == outs[i]);
    }
    assert(feed_all(st.reassembly, ps).1[ps.len() - 1] == outs[ps.len() - 1]);
    lemma_handle_all_quiet_until_message(st, ps, now_ms, m);
}

} // verus!
