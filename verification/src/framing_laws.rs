//! Laws of CTAPHID framing: what reassembly gives back of a fragmented
//! message.
use vstd::prelude::*;
use crate::ctap_hid::{
    AsmState, CtapHidError, HidMessage, MAX_PAYLOAD_SIZE, be_u32, cont_offset, cont_packet, declared_len,
    fragment_count, fragment_packet, fragment_packets, init_packet, is_init_report, lemma_num_cont_packets,
    min_int, num_cont_packets, report_cid, spec_feed, u32_be_bytes,
};

verus! {

/// The reassembler state after it has been fed reports `0..=j` of the
/// fragmentation of `m` (for `j` before the last report).
pub open spec fn state_after_packets(m: HidMessage, j: int) -> AsmState {
    AsmState::Assembling {
        cid: m.cid,
        cmd: m.cmd,
        expected_len: m.payload.len(),
        buffer: m.payload.take(cont_offset(j)),
        next_seq: j as u8,
    }
}

/// Feeding a sequence of reports, one after another: the final state and
/// the outcome of each report.
pub open spec fn feed_all(s: AsmState, ps: Seq<Seq<u8>>) -> (AsmState, Seq<Result<Option<HidMessage>, CtapHidError>>)
    decreases ps.len(),
{
    if ps.len() == 0 {
        (s, Seq::empty())
    } else {
        let (s1, o) = spec_feed(s, ps[0]);
        let (s2, os) = feed_all(s1, ps.drop_first());
        (s2, seq![o] + os)
    }
}

/// Feeding reports gives one outcome per report.
pub(crate) proof fn lemma_feed_all_len(s: AsmState, ps: Seq<Seq<u8>>)
    ensures
        feed_all(s, ps).1.len() == ps.len(),
    decreases ps.len(),
{
    if ps.len() > 0 {
        lemma_feed_all_len(spec_feed(s, ps[0]).0, ps.drop_first());
    }
}

/// The outcomes of reassembling a fragmented message: nothing for every
/// report but the last, and the message itself for the last.
pub open spec fn round_trip_outcomes(m: HidMessage) -> Seq<Result<Option<HidMessage>, CtapHidError>> {
    let n = fragment_count(m.payload.len() as int);
    Seq::new(n as nat, |j: int| if j < n - 1 { Ok(None) } else { Ok(Some(m)) })
}

proof fn lemma_cid_bytes_round_trip(v: u32)
    ensures
        ({
            let b = u32_be_bytes(v);
            be_u32(b[0], b[1], b[2], b[3]) == v
        }),
{
}

proof fn lemma_packet_cid(m: HidMessage, p: Seq<u8>)
    requires
        p.len() == 64,
        forall|i: int| 0 <= i < 4 ==> p[i] == u32_be_bytes(m.cid)[i],
    ensures
        report_cid(p) == m.cid,
{
    lemma_cid_bytes_round_trip(m.cid);
    assert(p[0] == u32_be_bytes(m.cid)[0]);
    assert(p[1] == u32_be_bytes(m.cid)[1]);
    assert(p[2] == u32_be_bytes(m.cid)[2]);
    assert(p[3] == u32_be_bytes(m.cid)[3]);
}

/// Feeding the initialization report of a fragmented message to a
/// reassembler in any state starts that message: it is complete at once when
/// it fits in one report, and otherwise the reassembler holds its first
/// 57 payload bytes.
pub proof fn lemma_feed_init_packet(s: AsmState, m: HidMessage)
    requires
        m.payload.len() <= MAX_PAYLOAD_SIZE,
        m.cmd < 0x80,
    ensures
        spec_feed(s, init_packet(m)) == (if m.payload.len() <= 57 {
            (AsmState::Idle, Ok::<Option<HidMessage>, CtapHidError>(Some(m)))
        } else {
            (state_after_packets(m, 0), Ok(None))
        }),
{
    let p = init_packet(m);
    let len = m.payload.len() as int;
    let cmd = m.cmd;
    lemma_packet_cid(m, p);
    assert(p[4] == cmd | 0x80u8);
    assert((cmd | 0x80u8) & 0x80u8 != 0) by (bit_vector);
    assert(cmd < 0x80u8 ==> (cmd | 0x80u8) & 0x7fu8 == cmd) by (bit_vector);
    assert(is_init_report(p));
    assert(declared_len(p) == len);
    if len <= 57 {
        assert(p.subrange(7, 7 + len) =~= m.payload);
    } else {
        assert(p.subrange(7, 64) =~= m.payload.take(cont_offset(0)));
    }
}

/// Feeding continuation report `k` of a fragmented message to the
/// reassembler that has taken the reports before it appends the next
/// payload bytes; after the last report the message is complete.
pub proof fn lemma_feed_cont_packet(m: HidMessage, k: int)
    requires
        m.payload.len() <= MAX_PAYLOAD_SIZE,
        0 <= k < num_cont_packets(m.payload.len() as int),
    ensures
        spec_feed(state_after_packets(m, k), cont_packet(m, k)) == (if k + 1 == num_cont_packets(
            m.payload.len() as int,
        ) {
            (AsmState::Idle, Ok::<Option<HidMessage>, CtapHidError>(Some(m)))
        } else {
            (state_after_packets(m, k + 1), Ok(None))
        }),
{
    let p = cont_packet(m, k);
    let len = m.payload.len() as int;
    lemma_num_cont_packets(len, k);
    lemma_num_cont_packets(len, k + 1);
    lemma_packet_cid(m, p);
    let b = k as u8;
    assert(p[4] == b);
    assert(b < 128u8 ==> b & 0x80u8 == 0) by (bit_vector);
    assert(!is_init_report(p));
    let buffer = m.payload.take(cont_offset(k));
    let take = min_int(len - buffer.len(), 59);
    let nb = buffer + p.subrange(5, 5 + take);
    if k + 1 == num_cont_packets(len) {
        assert(nb =~= m.payload);
    } else {
        assert(nb =~= m.payload.take(cont_offset(k + 1)));
    }
}

proof fn lemma_feed_suffix(m: HidMessage, j: int)
    requires
        m.payload.len() <= MAX_PAYLOAD_SIZE,
        1 <= j < fragment_count(m.payload.len() as int),
    ensures
        feed_all(state_after_packets(m, j - 1), fragment_packets(m).skip(j)) == (
            AsmState::Idle,
            round_trip_outcomes(m).skip(j),
        ),
    decreases fragment_count(m.payload.len() as int) - j,
{
    let n = fragment_count(m.payload.len() as int);
    let ps = fragment_packets(m).skip(j);
    assert(ps[0] == cont_packet(m, j - 1));
    lemma_feed_cont_packet(m, j - 1);
    assert(ps.len() > 0);
    let (s1, o) = spec_feed(state_after_packets(m, j - 1), ps[0]);
    if j + 1 < n {
        lemma_feed_suffix(m, j + 1);
        assert(ps.drop_first() =~= fragment_packets(m).skip(j + 1));
        assert(s1 == state_after_packets(m, j));
        assert(o == Ok::<Option<HidMessage>, CtapHidError>(None));
        assert(round_trip_outcomes(m).skip(j) =~= seq![o] + round_trip_outcomes(m).skip(j + 1));
    } else {
        assert(ps.drop_first() =~= Seq::<Seq<u8>>::empty());
        assert(s1 == AsmState::Idle);
        assert(o == Ok::<Option<HidMessage>, CtapHidError>(Some(m)));
        assert(feed_all(s1, ps.drop_first()) == (AsmState::Idle, Seq::<Result<Option<HidMessage>, CtapHidError>>::empty()));
        assert(round_trip_outcomes(m).skip(j) =~= seq![o] + Seq::<Result<Option<HidMessage>, CtapHidError>>::empty());
    }
}

/// Round trip: feeding the reports that `fragment` makes of a message to a
/// reassembler, whatever state it was in, yields nothing for every report
/// but the last, the message itself (same channel, command and payload) for
/// the last, and leaves the reassembler idle.
pub proof fn law_fragment_then_feed_round_trip(s: AsmState, m: HidMessage)
    requires
        m.payload.len() <= MAX_PAYLOAD_SIZE,
        m.cmd < 0x80,
    ensures
        feed_all(s, fragment_packets(m)) == (AsmState::Idle, round_trip_outcomes(m)),
{
    let n = fragment_count(m.payload.len() as int);
    let ps = fragment_packets(m);
    lemma_feed_init_packet(s, m);
    assert(ps[0] == init_packet(m));
    let (s1, o) = spec_feed(s, ps[0]);
    if n == 1 {
        assert(ps.drop_first() =~= Seq::<Seq<u8>>::empty());
        assert(s1 == AsmState::Idle);
        assert(o == Ok::<Option<HidMessage>, CtapHidError>(Some(m)));
        assert(feed_all(s1, ps.drop_first()) == (AsmState::Idle, Seq::<Result<Option<HidMessage>, CtapHidError>>::empty()));
        assert(round_trip_outcomes(m) =~= seq![o] + Seq::<Result<Option<HidMessage>, CtapHidError>>::empty());
    } else {
        lemma_feed_suffix(m, 1);
        assert(ps.drop_first() =~= ps.skip(1));
        assert(s1 == state_after_packets(m, 0));
        assert(o == Ok::<Option<HidMessage>, CtapHidError>(None));
        assert(round_trip_outcomes(m) =~= seq![o] + round_trip_outcomes(m).skip(1));
    }
}

/// Reassembly stays within the protocol: from a reachable state, feeding any
/// 64-byte report reaches a reachable state, and a completed message never
/// holds more than MAX_PAYLOAD_SIZE bytes.
pub proof fn law_feed_keeps_state_reachable(s: AsmState, r: Seq<u8>)
    requires
        crate::ctap_hid::asm_state_wf(s),
        r.len() == 64,
    ensures
        crate::ctap_hid::asm_state_wf(spec_feed(s, r).0),
        spec_feed(s, r).1 matches Ok(Some(m)) ==> m.payload.len() <= MAX_PAYLOAD_SIZE,
{
    if !is_init_report(r) {
        if let AsmState::Assembling { cid, cmd, expected_len, buffer, next_seq } = s {
            assert(next_seq < 128);
        }
    }
}

/// A framing error, and a completed message, leave the reassembler idle.
pub proof fn law_feed_error_or_message_leaves_idle(s: AsmState, r: Seq<u8>)
    requires
        r.len() == 64,
    ensures
        (spec_feed(s, r).1 is Err || spec_feed(s, r).1 matches Ok(Some(_))) ==> spec_feed(s, r).0 == AsmState::Idle,
{
}

/// An initialization report starts a new message whatever the reassembler
/// held: the outcome does not depend on the state it was in.
pub proof fn law_init_report_restarts(s1: AsmState, s2: AsmState, r: Seq<u8>)
    requires
        r.len() == 64,
        is_init_report(r),
    ensures
        spec_feed(s1, r) == spec_feed(s2, r),
{
}

/// Fragmenting a message that fits yields at most one initialization report
/// and 128 continuation reports, whose sequence numbers count up from 0 with
/// bit 7 clear.
pub proof fn law_fragment_shape(m: HidMessage)
    requires
        m.payload.len() <= MAX_PAYLOAD_SIZE,
    ensures
        fragment_count(m.payload.len() as int) <= 129,
        is_init_report(init_packet(m)),
        forall|k: int|
            0 <= k < num_cont_packets(m.payload.len() as int) ==> {
                &&& #[trigger] cont_packet(m, k)[4] == k
                &&& !is_init_report(cont_packet(m, k))
            },
{
    lemma_num_cont_packets(m.payload.len() as int, 0);
    let c = m.cmd;
    assert((c | 0x80u8) & 0x80u8 != 0) by (bit_vector);
    assert(init_packet(m)[4] == c | 0x80u8);
    assert forall|k: int| 0 <= k < num_cont_packets(m.payload.len() as int) implies {
        &&& #[trigger] cont_packet(m, k)[4] == k
        &&& !is_init_report(cont_packet(m, k))
    } by {
        let b = k as u8;
        assert(b < 128u8 ==> b & 0x80u8 == 0) by (bit_vector);
        assert(cont_packet(m, k)[4] == b);
    }
}

/// Every report of a fragmented message carries the message's channel ID
/// (big-endian, in its first four bytes), and only the first report is an
/// initialization packet.
pub proof fn law_fragment_reports_channel_and_kind(m: HidMessage)
    requires
        m.payload.len() <= MAX_PAYLOAD_SIZE,
    ensures
        forall|j: int|
            0 <= j < fragment_count(m.payload.len() as int) ==> {
                &&& report_cid(#[trigger] fragment_packet(m, j)) == m.cid
                &&& (is_init_report(fragment_packet(m, j)) <==> j == 0)
            },
{
    law_fragment_shape(m);
    assert forall|j: int| 0 <= j < fragment_count(m.payload.len() as int) implies {
        &&& report_cid(#[trigger] fragment_packet(m, j)) == m.cid
        &&& (is_init_report(fragment_packet(m, j)) <==> j == 0)
    } by {
        lemma_packet_cid(m, fragment_packet(m, j));
        if j > 0 {
            assert(!is_init_report(cont_packet(m, j - 1)));
        }
    }
}

} // verus!
