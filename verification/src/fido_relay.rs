//! The decisions of the relay to a physical FIDO2 authenticator: which HID
//! devices are authenticators, how a channel is allocated, how messages are
//! written and read back, and how the authenticator's answers end a relay.
//! The caller does the HID I/O.
use vstd::prelude::*;
use crate::ctap_hid::{
    BROADCAST_CID, CTAPHID_CANCEL, CTAPHID_CBOR, CTAPHID_ERROR, CTAPHID_INIT, CTAPHID_KEEPALIVE,
    CtapHidAssembler, CtapHidError, CtapHidMessage, HID_REPORT_SIZE, HidMessage, MAX_PAYLOAD_SIZE,
    be_u32, fragment, fragment_count, fragment_packet, spec_feed, AsmState,
};

verus! {

/// HID usage page of FIDO authenticators.
pub const FIDO_USAGE_PAGE: u16 = 0xF1D0;

/// HID usage of FIDO authenticators.
pub const FIDO_USAGE: u16 = 0x01;

/// CTAP1_ERR_OTHER.
pub const CTAP1_ERR_OTHER: u32 = 0x01;

/// CTAP2_ERR_KEEPALIVE_CANCEL.
pub const CTAP2_ERR_KEEPALIVE_CANCEL: u32 = 0x2D;

/// CTAP2_ERR_NO_CREDENTIALS, reported when no authenticator is connected.
pub const CTAP2_ERR_NO_CREDENTIALS: u32 = 0x2E;

/// Status reported when the authenticator's ERROR message carries no code.
pub const ERROR_WITHOUT_CODE: u32 = 0x7F;

/// Result of relaying a CTAP command to the physical authenticator.
#[derive(Debug)]
pub enum CtapRelayResult {
    /// Successful response from the authenticator.
    Response(Vec<u8>),
    /// Error from the authenticator or driver (CTAP2 error code).
    Error(u32),
}

/// Whether a HID device with this usage page and usage is a FIDO
/// authenticator.
pub fn is_fido_device(usage_page: u16, usage: u16) -> (r: bool)
    ensures
        r == (usage_page == FIDO_USAGE_PAGE && usage == FIDO_USAGE),
{
    usage_page == FIDO_USAGE_PAGE && usage == FIDO_USAGE
}

/// `rand::random::<[u8; 8]>()`: eight bytes from the thread-local random
/// number generator. Nothing is claimed of the bytes (they are random); the
/// call panics only when the operating system's random source fails to seed
/// the generator, which no argument can rule out.
#[verifier::external_body]
fn random_nonce() -> (r: [u8; 8]) {
    rand::random::<[u8; 8]>()
}

/// The CTAPHID_INIT request that asks for a channel with `nonce`.
pub fn init_request(nonce: &[u8; 8]) -> (r: CtapHidMessage)
    ensures
        r@ == (HidMessage { cid: BROADCAST_CID, cmd: CTAPHID_INIT, payload: nonce@ }),
{
    let mut payload: Vec<u8> = Vec::new();
    let mut i: usize = 0;
    while i < 8
        invariant
            0 <= i <= 8,
            payload@ == nonce@.take(i as int),
        decreases 8 - i,
    {
        payload.push(nonce[i]);
        i = i + 1;
        assert(payload@ =~= nonce@.take(i as int));
    }
    assert(nonce@.take(8) =~= nonce@);
    CtapHidMessage { cid: BROADCAST_CID, cmd: CTAPHID_INIT, payload }
}

/// A channel allocation request: a fresh random nonce and the INIT request
/// that carries it.
pub struct ChannelRequest {
    pub nonce: [u8; 8],
    pub message: CtapHidMessage,
}

/// Start a channel allocation with a fresh random nonce.
pub fn channel_request() -> (r: ChannelRequest)
    ensures
        r.message@ == (HidMessage { cid: BROADCAST_CID, cmd: CTAPHID_INIT, payload: r.nonce@ }),
{
    let nonce = random_nonce();
    let message = init_request(&nonce);
    ChannelRequest { nonce, message }
}

/// Why a channel allocation failed.
#[derive(Debug)]
pub enum ChannelError {
    /// No INIT response arrived in time.
    Timeout,
    /// The answer was not an INIT response of at least 17 bytes.
    InvalidResponse,
    /// The INIT response echoed another nonce.
    NonceMismatch,
}

/// The channel that an answer to an INIT request with `nonce` allocates: the
/// big-endian ID at payload bytes 8..12 of an INIT response of at least 17
/// bytes that echoes the nonce.
pub open spec fn spec_init_response_cid(resp: Option<HidMessage>, nonce: Seq<u8>) -> Result<u32, ChannelError> {
    match resp {
        None => Err(ChannelError::Timeout),
        Some(m) => {
            if m.cmd != CTAPHID_INIT || m.payload.len() < 17 {
                Err(ChannelError::InvalidResponse)
            } else if m.payload.take(8) != nonce {
                Err(ChannelError::NonceMismatch)
            } else {
                Ok(be_u32(m.payload[8], m.payload[9], m.payload[10], m.payload[11]))
            }
        },
    }
}

pub open spec fn option_message_view(m: Option<CtapHidMessage>) -> Option<HidMessage> {
    match m {
        Some(m) => Some(m@),
        None => None,
    }
}

fn echoes_nonce(payload: &Vec<u8>, nonce: &[u8; 8]) -> (r: bool)
    requires
        payload@.len() >= 8,
    ensures
        r == (payload@.take(8) == nonce@),
{
    let mut i: usize = 0;
    while i < 8
        invariant
            0 <= i <= 8,
            payload@.len() >= 8,
            forall|j: int| 0 <= j < i ==> payload@[j] == nonce@[j],
        decreases 8 - i,
    {
        if payload[i] != nonce[i] {
            assert(payload@.take(8)[i as int] != nonce@[i as int]);
            return false;
        }
        i = i + 1;
    }
    assert(payload@.take(8) =~= nonce@);
    true
}

/// Check the answer to an INIT request with `nonce` and take the allocated
/// channel ID from it.
pub fn parse_init_response(resp: Option<CtapHidMessage>, nonce: &[u8; 8]) -> (r: Result<u32, ChannelError>)
    ensures
        r == spec_init_response_cid(option_message_view(resp), nonce@),
{
    let m = match resp {
        None => return Err(ChannelError::Timeout),
        Some(m) => m,
    };
    if m.cmd != CTAPHID_INIT || m.payload.len() < 17 {
        return Err(ChannelError::InvalidResponse);
    }
    if !echoes_nonce(&m.payload, nonce) {
        return Err(ChannelError::NonceMismatch);
    }
    assert(m.payload@.take(8) =~= nonce@);
    let p = &m.payload;
    Ok((p[8] as u32) * 0x1000000 + (p[9] as u32) * 0x10000 + (p[10] as u32) * 0x100 + (p[11] as u32))
}

/// The buffer that hidapi writes for one report: report ID 0 followed by the
/// 64 report bytes.
pub open spec fn write_buffer(report: Seq<u8>) -> Seq<u8> {
    seq![0u8] + report
}

/// Prefix a report with report ID 0 for hidapi.
pub fn hid_write_buffer(report: &[u8; HID_REPORT_SIZE]) -> (r: [u8; 65])
    ensures
        r@ == write_buffer(report@),
{
    let mut buf = [0u8; 65];
    let mut i: usize = 0;
    while i < 64
        invariant
            0 <= i <= 64,
            buf@.len() == 65,
            buf@[0] == 0u8,
            forall|j: int| 1 <= j < 65 ==> #[trigger] buf@[j] == (if j - 1 < i { report@[j - 1] } else { 0u8 }),
        decreases 64 - i,
    {
        buf[i + 1] = report[i];
        i = i + 1;
    }
    assert(buf@ =~= write_buffer(report@));
    buf
}

/// The hidapi write buffers that send `msg` to an authenticator: one per
/// report of its fragmentation, in order.
pub fn hid_write_buffers(msg: &CtapHidMessage) -> (r: Result<Vec<[u8; 65]>, CtapHidError>)
    ensures
        r is Ok <==> msg.payload.len() <= MAX_PAYLOAD_SIZE,
        r matches Ok(bufs) ==> {
            &&& bufs@.len() == fragment_count(msg.payload.len() as int)
            &&& forall|j: int| 0 <= j < bufs@.len() ==> (#[trigger] bufs@[j])@ == write_buffer(fragment_packet(msg@, j))
        },
        r matches Err(e) ==> e == (CtapHidError::PayloadTooLarge { size: msg.payload.len(), max: MAX_PAYLOAD_SIZE }),
{
    let packets = match fragment(msg) {
        Ok(ps) => ps,
        Err(e) => return Err(e),
    };
    let mut bufs: Vec<[u8; 65]> = Vec::new();
    let mut i: usize = 0;
    while i < packets.len()
        invariant
            0 <= i <= packets@.len(),
            forall|j: int| 0 <= j < packets@.len() ==> (#[trigger] packets@[j])@ == fragment_packet(msg@, j),
            bufs@.len() == i,
            forall|j: int| 0 <= j < i ==> (#[trigger] bufs@[j])@ == write_buffer(fragment_packet(msg@, j)),
        decreases packets@.len() - i,
    {
        let b = hid_write_buffer(&packets[i]);
        bufs.push(b);
        i = i + 1;
    }
    Ok(bufs)
}

/// What one HID read means for a read of a whole message.
pub enum ReadStep {
    /// The read timed out (no bytes): the message read ends with nothing.
    TimedOut,
    /// Keep reading.
    Continue,
    /// A message for the expected channel is complete.
    Message(CtapHidMessage),
}

/// The value of a read step.
pub enum ReadStepView {
    TimedOut,
    Continue,
    Message(HidMessage),
}

impl View for ReadStep {
    type V = ReadStepView;

    open spec fn view(&self) -> ReadStepView {
        match self {
            ReadStep::TimedOut => ReadStepView::TimedOut,
            ReadStep::Continue => ReadStepView::Continue,
            ReadStep::Message(m) => ReadStepView::Message(m@),
        }
    }
}

/// One read of `n` bytes into `buf` while reading a message for channel
/// `expected_cid` (any channel when it is the broadcast channel): nothing
/// read ends the read; a short read is skipped; a full report is fed to the
/// reassembler, whose framing errors and messages for other channels are
/// dropped (leaving it idle).
pub open spec fn spec_read_step(s: AsmState, expected_cid: u32, buf: Seq<u8>, n: int) -> (AsmState, ReadStepView) {
    if n == 0 {
        (s, ReadStepView::TimedOut)
    } else if n != 64 {
        (s, ReadStepView::Continue)
    } else {
        let (s1, out) = spec_feed(s, buf);
        match out {
            Ok(Some(m)) => {
                if expected_cid != BROADCAST_CID && m.cid != expected_cid {
                    (AsmState::Idle, ReadStepView::Continue)
                } else {
                    (s1, ReadStepView::Message(m))
                }
            },
            Ok(None) => (s1, ReadStepView::Continue),
            Err(_) => (AsmState::Idle, ReadStepView::Continue),
        }
    }
}

/// Decide what one HID read means (see `spec_read_step`).
pub fn read_step(assembler: &mut CtapHidAssembler, expected_cid: u32, buf: &[u8; HID_REPORT_SIZE], n: usize) -> (r: ReadStep)
    requires
        old(assembler).wf(),
    ensures
        final(assembler).wf(),
        (final(assembler)@, r@) == spec_read_step(old(assembler)@, expected_cid, buf@, n as int),
{
    if n == 0 {
        return ReadStep::TimedOut;
    }
    if n != HID_REPORT_SIZE {
        return ReadStep::Continue;
    }
    match assembler.feed(buf) {
        Ok(Some(msg)) => {
            if expected_cid != BROADCAST_CID && msg.cid != expected_cid {
                assembler.reset();
                ReadStep::Continue
            } else {
                ReadStep::Message(msg)
            }
        },
        Ok(None) => ReadStep::Continue,
        Err(_) => {
            assembler.reset();
            ReadStep::Continue
        },
    }
}

/// The CTAPHID_CBOR request that carries a CTAP2 command on channel `cid`.
pub fn cbor_request(cid: u32, cbor_payload: &[u8]) -> (r: CtapHidMessage)
    ensures
        r@ == (HidMessage { cid, cmd: CTAPHID_CBOR, payload: cbor_payload@ }),
{
    let mut payload: Vec<u8> = Vec::new();
    let mut i: usize = 0;
    while i < cbor_payload.len()
        invariant
            0 <= i <= cbor_payload@.len(),
            payload@ == cbor_payload@.take(i as int),
        decreases cbor_payload@.len() - i,
    {
        payload.push(cbor_payload[i]);
        i = i + 1;
        assert(payload@ =~= cbor_payload@.take(i as int));
    }
    assert(cbor_payload@.take(cbor_payload@.len() as int) =~= cbor_payload@);
    CtapHidMessage { cid, cmd: CTAPHID_CBOR, payload }
}

/// The CTAPHID_CANCEL request for channel `cid`.
pub fn cancel_message(cid: u32) -> (r: CtapHidMessage)
    ensures
        r@ == (HidMessage { cid, cmd: CTAPHID_CANCEL, payload: Seq::empty() }),
{
    CtapHidMessage { cid, cmd: CTAPHID_CANCEL, payload: Vec::new() }
}

/// What happened while waiting for the authenticator's answer.
pub enum RelayEvent {
    /// The user cancelled the operation.
    CancelRequested,
    /// The relay's deadline has passed.
    DeadlinePassed,
    /// A complete message arrived from the authenticator.
    Received(CtapHidMessage),
    /// A read ended without a message; keep waiting.
    NothingYet,
    /// Reading from the authenticator failed.
    ReadFailed,
}

/// What the relay does next.
pub enum RelayDecision {
    /// Keep waiting for the authenticator.
    Wait,
    /// Send this CANCEL request to the authenticator, then end with the result.
    CancelThenFinish(CtapHidMessage, CtapRelayResult),
    /// End the relay with this result.
    Finish(CtapRelayResult),
}

/// The value of a relay result.
pub enum RelayResultView {
    Response(Seq<u8>),
    Error(u32),
}

impl View for CtapRelayResult {
    type V = RelayResultView;

    open spec fn view(&self) -> RelayResultView {
        match self {
            CtapRelayResult::Response(p) => RelayResultView::Response(p@),
            CtapRelayResult::Error(c) => RelayResultView::Error(*c),
        }
    }
}

/// The value of a relay decision.
pub enum RelayDecisionView {
    Wait,
    CancelThenFinish(HidMessage, RelayResultView),
    Finish(RelayResultView),
}

impl View for RelayDecision {
    type V = RelayDecisionView;

    open spec fn view(&self) -> RelayDecisionView {
        match self {
            RelayDecision::Wait => RelayDecisionView::Wait,
            RelayDecision::CancelThenFinish(m, r) => RelayDecisionView::CancelThenFinish(m@, r@),
            RelayDecision::Finish(r) => RelayDecisionView::Finish(r@),
        }
    }
}

pub open spec fn relay_event_message(e: RelayEvent) -> Option<HidMessage> {
    match e {
        RelayEvent::Received(m) => Some(m@),
        _ => None,
    }
}

/// How a relay on channel `cid` reacts to an event: a cancellation sends
/// CANCEL and ends with KEEPALIVE_CANCEL; the deadline ends with
/// KEEPALIVE_CANCEL; a read failure ends with ERR_OTHER; a CBOR answer ends
/// with its payload; an ERROR answer ends with its first byte (0x7F when it
/// has none); keepalives and other answers are waited past.
pub open spec fn spec_relay_decision(cid: u32, e: RelayEvent) -> RelayDecisionView {
    match e {
        RelayEvent::CancelRequested => RelayDecisionView::CancelThenFinish(
            HidMessage { cid, cmd: CTAPHID_CANCEL, payload: Seq::empty() },
            RelayResultView::Error(CTAP2_ERR_KEEPALIVE_CANCEL),
        ),
        RelayEvent::DeadlinePassed => RelayDecisionView::Finish(RelayResultView::Error(CTAP2_ERR_KEEPALIVE_CANCEL)),
        RelayEvent::ReadFailed => RelayDecisionView::Finish(RelayResultView::Error(CTAP1_ERR_OTHER)),
        RelayEvent::NothingYet => RelayDecisionView::Wait,
        RelayEvent::Received(m) => {
            if m.cmd == CTAPHID_KEEPALIVE {
                RelayDecisionView::Wait
            } else if m.cmd == CTAPHID_CBOR {
                RelayDecisionView::Finish(RelayResultView::Response(m.payload@))
            } else if m.cmd == CTAPHID_ERROR {
                RelayDecisionView::Finish(
                    RelayResultView::Error(if m.payload@.len() > 0 { m.payload@[0] as u32 } else { ERROR_WITHOUT_CODE }),
                )
            } else {
                RelayDecisionView::Wait
            }
        },
    }
}

/// Decide how a relay on channel `cid` reacts to an event.
pub fn relay_decision(cid: u32, e: RelayEvent) -> (r: RelayDecision)
    ensures
        r@ == spec_relay_decision(cid, e),
{
    match e {
        RelayEvent::CancelRequested => RelayDecision::CancelThenFinish(
            cancel_message(cid),
            CtapRelayResult::Error(CTAP2_ERR_KEEPALIVE_CANCEL),
        ),
        RelayEvent::DeadlinePassed => RelayDecision::Finish(CtapRelayResult::Error(CTAP2_ERR_KEEPALIVE_CANCEL)),
        RelayEvent::ReadFailed => RelayDecision::Finish(CtapRelayResult::Error(CTAP1_ERR_OTHER)),
        RelayEvent::NothingYet => RelayDecision::Wait,
        RelayEvent::Received(m) => {
            if m.cmd == CTAPHID_KEEPALIVE {
                RelayDecision::Wait
            } else if m.cmd == CTAPHID_CBOR {
                RelayDecision::Finish(CtapRelayResult::Response(m.payload))
            } else if m.cmd == CTAPHID_ERROR {
                let code: u32 = if m.payload.len() > 0 { m.payload[0] as u32 } else { ERROR_WITHOUT_CODE };
                RelayDecision::Finish(CtapRelayResult::Error(code))
            } else {
                RelayDecision::Wait
            }
        },
    }
}

} // verus!
