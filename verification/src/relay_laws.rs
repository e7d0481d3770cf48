//! Laws of the local relay: the allow list, the check of INIT responses and
//! the reading of a whole message from the key.
use vstd::prelude::*;
use crate::ctap_hid::{
    AsmState, BROADCAST_CID, CTAPHID_INIT, CtapHidError, HidMessage, MAX_PAYLOAD_SIZE, fragment_count,
    fragment_packets, spec_allowed_ctap2_payload, spec_feed,
};
use crate::fido_relay::{ChannelError, ReadStepView, spec_init_response_cid, spec_read_step};
use crate::framing_laws::{feed_all, law_fragment_then_feed_round_trip, lemma_feed_all_len, round_trip_outcomes};

verus! {

/// The allow list is exactly MakeCredential (0x01), GetAssertion (0x02),
/// GetInfo (0x04), ClientPIN (0x06), GetNextAssertion (0x08) and Selection
/// (0x0B): a payload passes iff it is non-empty and its first byte is one of
/// them; every other command byte (Reset 0x07, LargeBlobs 0x0C, ...) and the
/// empty payload are refused.
pub proof fn law_allow_list_is_exact(payload: Seq<u8>)
    ensures
        spec_allowed_ctap2_payload(payload) <==> (payload.len() > 0 && set![
            0x01u8,
            0x02u8,
            0x04u8,
            0x06u8,
            0x08u8,
            0x0Bu8,
        ].contains(payload[0])),
        payload.len() > 0 && payload[0] != 0x01 && payload[0] != 0x02 && payload[0] != 0x04
            && payload[0] != 0x06 && payload[0] != 0x08 && payload[0] != 0x0B ==> !spec_allowed_ctap2_payload(payload),
{
}

/// An INIT response is accepted only for its own nonce: an INIT response of
/// at least 17 bytes whose payload byte `j` (for any `j` in 0..8) differs
/// from the nonce's byte `j` is refused with NonceMismatch; one whose first
/// 8 payload bytes are the nonce allocates the big-endian channel ID at
/// payload bytes 8..12.
pub proof fn law_init_response_needs_own_nonce(m: HidMessage, nonce: Seq<u8>, j: int)
    requires
        nonce.len() == 8,
        m.cmd == CTAPHID_INIT,
        m.payload.len() >= 17,
    ensures
        0 <= j < 8 && m.payload[j] != nonce[j] ==> spec_init_response_cid(Some(m), nonce) == Err::<
            u32,
            ChannelError,
        >(ChannelError::NonceMismatch),
        (forall|i: int| 0 <= i < 8 ==> m.payload[i] == nonce[i]) ==> spec_init_response_cid(Some(m), nonce)
            == Ok::<u32, ChannelError>(
            (m.payload[8] as int * 0x1000000 + m.payload[9] as int * 0x10000 + m.payload[10] as int * 0x100
                + m.payload[11] as int) as u32,
        ),
{
    if 0 <= j < 8 && m.payload[j] != nonce[j] {
        assert(m.payload.take(8)[j] != nonce[j]);
    }
    if forall|i: int| 0 <= i < 8 ==> m.payload[i] == nonce[i] {
        assert(m.payload.take(8) =~= nonce);
    }
}

/// Reading reports one after another with `spec_read_step`, each a full
/// 64-byte read: the final reassembler state and the step of each read.
pub open spec fn read_all(s: AsmState, expected_cid: u32, ps: Seq<Seq<u8>>) -> (AsmState, Seq<ReadStepView>)
    decreases ps.len(),
{
    if ps.len() == 0 {
        (s, Seq::empty())
    } else {
        let (s1, o) = spec_read_step(s, expected_cid, ps[0], 64);
        let (s2, os) = read_all(s1, expected_cid, ps.drop_first());
        (s2, seq![o] + os)
    }
}

/// The read step that a feed outcome gives when it is not dropped.
pub open spec fn step_of_outcome(o: Result<Option<HidMessage>, CtapHidError>) -> ReadStepView {
    match o {
        Ok(Some(m)) => ReadStepView::Message(m),
        _ => ReadStepView::Continue,
    }
}

proof fn lemma_read_all_follows_feed(s: AsmState, e: u32, ps: Seq<Seq<u8>>)
    requires
        forall|i: int| 0 <= i < ps.len() ==> (#[trigger] ps[i]).len() == 64,
        forall|i: int| 0 <= i < ps.len() ==> (#[trigger] feed_all(s, ps).1[i]) is Ok,
        forall|i: int|
            0 <= i < ps.len() ==> (#[trigger] feed_all(s, ps).1[i] matches Ok(Some(m)) ==> (e == BROADCAST_CID
                || m.cid == e)),
    ensures
        read_all(s, e, ps) == (
            feed_all(s, ps).0,
            Seq::new(ps.len(), |i: int| step_of_outcome(feed_all(s, ps).1[i])),
        ),
    decreases ps.len(),
{
    lemma_feed_all_len(s, ps);
    if ps.len() > 0 {
        let (s1, o) = spec_feed(s, ps[0]);
        let tail = ps.drop_first();
        lemma_feed_all_len(s1, tail);
        let (s2, os) = feed_all(s1, tail);
        assert(feed_all(s, ps).1 == seq![o] + os);
        assert(feed_all(s, ps).1[0] == o);
        assert forall|i: int| 0 <= i < tail.len() implies (#[trigger] tail[i]).len() == 64 by {
            assert(tail[i] == ps[i + 1]);
        }
        assert forall|i: int| 0 <= i < tail.len() implies (#[trigger] feed_all(s1, tail).1[i]) is Ok && (
        feed_all(s1, tail).1[i] matches Ok(Some(m)) ==> (e == BROADCAST_CID || m.cid == e)) by {
            assert(feed_all(s, ps).1[i + 1] == os[i]);
        }
        lemma_read_all_follows_feed(s1, e, tail);
        assert(spec_read_step(s, e, ps[0], 64) == (s1, step_of_outcome(o)));
        let want = Seq::new(ps.len(), |i: int| step_of_outcome(feed_all(s, ps).1[i]));
        let got = seq![step_of_outcome(o)] + Seq::new(tail.len(), |i: int| step_of_outcome(os[i]));
        assert forall|i: int| 0 <= i < ps.len() implies got[i] == want[i] by {
            if i > 0 {
                assert(feed_all(s, ps).1[i] == os[i - 1]);
            }
        }
        assert(got =~= want);
    }
}

/// Reading a message from the key does not end early: feeding the reports
/// of a message on the expected channel (or any message when the broadcast
/// channel is expected) through successive full reads, whatever the
/// reassembler held, gives Continue for every report but the last and the
/// message itself for the last, and leaves the reassembler idle.
pub proof fn law_read_whole_message(s: AsmState, expected_cid: u32, m: HidMessage)
    requires
        m.payload.len() <= MAX_PAYLOAD_SIZE,
        m.cmd < 0x80,
        m.cid == expected_cid || expected_cid == BROADCAST_CID,
    ensures
        ({
            let n = fragment_count(m.payload.len() as int);
            read_all(s, expected_cid, fragment_packets(m)) == (
                AsmState::Idle,
                Seq::new(
                    n as nat,
                    |j: int| if j < n - 1 { ReadStepView::Continue } else { ReadStepView::Message(m) },
                ),
            )
        }),
{
    let ps = fragment_packets(m);
    let n = fragment_count(m.payload.len() as int);
    law_fragment_then_feed_round_trip(s, m);
    lemma_feed_all_len(s, ps);
    let outs = round_trip_outcomes(m);
    assert forall|i: int| 0 <= i < ps.len() implies (#[trigger] ps[i]).len() == 64 by {
        assert(ps[i] == crate::ctap_hid::fragment_packet(m, i));
    }
    assert forall|i: int| 0 <= i < ps.len() implies (#[trigger] feed_all(s, ps).1[i]) is Ok && (
    feed_all(s, ps).1[i] matches Ok(Some(mm)) ==> (expected_cid == BROADCAST_CID || mm.cid == expected_cid)) by {
        assert(feed_all(s, ps).1[i] == outs[i]);
    }
    lemma_read_all_follows_feed(s, expected_cid, ps);
    let want = Seq::new(n as nat, |j: int| if j < n - 1 { ReadStepView::Continue } else { ReadStepView::Message(m) });
    let got = Seq::new(ps.len(), |i: int| step_of_outcome(feed_all(s, ps).1[i]));
    assert forall|i: int| 0 <= i < n implies got[i] == want[i] by {
        assert(feed_all(s, ps).1[i] == outs[i]);
    }
    assert(got =~= want);
}

} // verus!
