//! The remote CTAP service's decisions: what it does with each report the
//! browser writes to the virtual FIDO device, with each response frame from
//! the client, and with each keepalive tick. The caller performs the
//! returned actions (device writes and tunnel sends) in order.
use vstd::prelude::*;
use crate::ctap_frame::{CtapFrame, FrameView};
use crate::ctap_hid::{
    AsmState, BROADCAST_CID, CTAPHID_CANCEL, CTAPHID_CBOR, CTAPHID_ERROR, CTAPHID_INIT,
    CTAPHID_KEEPALIVE, CTAPHID_PING, CtapHidAssembler, CtapHidError, CtapHidMessage, ERR_CHANNEL_BUSY,
    ERR_INVALID_CMD, ERR_INVALID_LEN, ERR_INVALID_SEQ, ERR_MSG_TIMEOUT, HID_REPORT_SIZE, HidMessage,
    MAX_PAYLOAD_SIZE, STATUS_UPNEEDED, asm_state_wf, fragment, fragment_packet, fragment_packets,
    is_allowed_ctap2_command, parse_cid, report_cid, spec_allowed_ctap2_payload, spec_feed, u32_be_bytes,
};

verus! {

/// Configuration for the CTAP service (times in milliseconds).
pub struct CtapServiceConfig {
    /// Maximum time to wait for a response from the client.
    pub client_timeout_ms: u64,
    /// KEEPALIVE interval.
    pub keepalive_interval_ms: u64,
}

impl Default for CtapServiceConfig {
    fn default() -> (r: Self)
        ensures
            r.client_timeout_ms == 25000,
            r.keepalive_interval_ms == 100,
    {
        CtapServiceConfig { client_timeout_ms: 25000, keepalive_interval_ms: 100 }
    }
}

/// The longest wait between the reports of one message (milliseconds):
/// between the initialization packet and the first continuation packet, and
/// between consecutive continuation packets.
pub const PACKET_TIMEOUT_MS: u64 = 500;

/// Capability flags advertised in INIT responses (CBOR only).
pub const INIT_CAPABILITIES: u8 = 0x04;

/// Something the service asks its caller to do.
pub enum ServiceAction {
    /// Write this input report to the virtual device (towards the browser).
    WriteReport([u8; HID_REPORT_SIZE]),
    /// Send this frame to the peer (the client with the physical key).
    SendToPeer(CtapFrame),
}

/// The value of an action.
pub enum ActionView {
    Report(Seq<u8>),
    Peer(FrameView),
}

impl View for ServiceAction {
    type V = ActionView;

    open spec fn view(&self) -> ActionView {
        match self {
            ServiceAction::WriteReport(p) => ActionView::Report(p@),
            ServiceAction::SendToPeer(f) => ActionView::Peer(f@),
        }
    }
}

pub open spec fn actions_view(v: Seq<ServiceAction>) -> Seq<ActionView> {
    Seq::new(v.len(), |i: int| v[i]@)
}

/// The actions that send message `m` to the browser: one device write per
/// report of its fragmentation.
pub open spec fn send_message(m: HidMessage) -> Seq<ActionView> {
    let ps = fragment_packets(m);
    Seq::new(ps.len(), |i: int| ActionView::Report(ps[i]))
}

pub open spec fn error_message(cid: u32, code: u8) -> HidMessage {
    HidMessage { cid, cmd: CTAPHID_ERROR, payload: seq![code] }
}

pub open spec fn keepalive_message(cid: u32, status: u8) -> HidMessage {
    HidMessage { cid, cmd: CTAPHID_KEEPALIVE, payload: seq![status] }
}

pub open spec fn init_response_message(nonce: Seq<u8>, new_cid: u32, capabilities: u8) -> HidMessage {
    HidMessage {
        cid: BROADCAST_CID,
        cmd: CTAPHID_INIT,
        payload: nonce + u32_be_bytes(new_cid) + seq![2u8, 0u8, 0u8, 0u8, capabilities],
    }
}

/// The frame that forwards a CBOR request to the client.
pub open spec fn cbor_request_frame(payload: Seq<u8>) -> FrameView {
    FrameView { command: CTAPHID_CBOR as u32, payload, is_response: false, error_code: 0 }
}

/// The frame that forwards a cancellation to the client.
pub open spec fn cancel_request_frame() -> FrameView {
    FrameView { command: CTAPHID_CANCEL as u32, payload: Seq::empty(), is_response: false, error_code: 0 }
}

/// The state of the service.
pub struct ServiceState {
    pub reassembly: AsmState,
    /// The channel ID that the next INIT gets.
    pub next_cid: u32,
    /// The channel of the CBOR transaction waiting for the client, if any.
    pub active_cid: Option<u32>,
    /// When the CBOR request that waits for the client was forwarded
    /// (milliseconds), if one waits.
    pub forwarded_at: Option<u64>,
    /// When the last report of the message being reassembled arrived
    /// (milliseconds), if one is being reassembled.
    pub packet_at: Option<u64>,
}

/// The states the service can be in: a reachable reassembler state, and a
/// next channel ID that is neither 0 nor the broadcast channel.
pub open spec fn service_state_wf(st: ServiceState) -> bool {
    &&& asm_state_wf(st.reassembly)
    &&& st.next_cid != 0
    &&& st.next_cid != BROADCAST_CID
}

/// The channel ID allocated after `c`: the next one, skipping 0 and the
/// broadcast channel.
pub open spec fn next_channel(c: u32) -> u32 {
    if c + 1 == BROADCAST_CID || c + 1 > u32::MAX { 1 } else { (c + 1) as u32 }
}

/// Answer to a complete CTAPHID_INIT request: an INIT response that echoes
/// the first 8 payload bytes and allocates `next_cid`, or INVALID_LEN when
/// the nonce is shorter than 8 bytes.
pub open spec fn spec_handle_init(st: ServiceState, msg: HidMessage) -> (ServiceState, Seq<ActionView>) {
    if msg.payload.len() < 8 {
        (st, send_message(error_message(msg.cid, ERR_INVALID_LEN)))
    } else {
        (
            ServiceState { next_cid: next_channel(st.next_cid), ..st },
            send_message(init_response_message(msg.payload.take(8), st.next_cid, INIT_CAPABILITIES)),
        )
    }
}

/// Answer to a complete message from the browser. `st` already holds the
/// reassembler's new state.
pub open spec fn spec_dispatch(st: ServiceState, msg: HidMessage, now_ms: u64) -> (
    ServiceState,
    Seq<ActionView>,
) {
    if msg.cmd == CTAPHID_INIT {
        spec_handle_init(st, msg)
    } else if msg.cmd == CTAPHID_PING {
        (st, send_message(HidMessage { cid: msg.cid, cmd: CTAPHID_PING, payload: msg.payload }))
    } else if msg.cmd == CTAPHID_CBOR {
        if st.active_cid is Some {
            (st, send_message(error_message(msg.cid, ERR_CHANNEL_BUSY)))
        } else if !spec_allowed_ctap2_payload(msg.payload) {
            (st, send_message(error_message(msg.cid, ERR_INVALID_CMD)))
        } else {
            (
                ServiceState {
                    active_cid: Some(msg.cid),
                    forwarded_at: Some(now_ms),
                    ..st
                },
                seq![ActionView::Peer(cbor_request_frame(msg.payload))],
            )
        }
    } else if msg.cmd == CTAPHID_CANCEL {
        if st.active_cid == Some(msg.cid) {
            (
                ServiceState { active_cid: None, forwarded_at: None, ..st },
                seq![ActionView::Peer(cancel_request_frame())],
            )
        } else {
            (st, Seq::empty())
        }
    } else {
        (st, send_message(error_message(msg.cid, ERR_INVALID_CMD)))
    }
}

/// What the service does with one output report written by the browser at
/// `now_ms`: first abandon a message in progress whose last report came
/// PACKET_TIMEOUT_MS or more before (answering ERR_MSG_TIMEOUT on its
/// channel), then take the report in.
pub open spec fn spec_handle_report(st: ServiceState, r: Seq<u8>, now_ms: u64) -> (
    ServiceState,
    Seq<ActionView>,
) {
    let (st0, a0) = spec_packet_timeout(st, now_ms);
    let (st1, a1) = spec_accept_report(st0, r, now_ms);
    (st1, a0 + a1)
}

/// How the service takes in one report at `now_ms`: feed it to the
/// reassembler (noting the time when a message stays in progress); on a
/// framing error answer ERR_INVALID_SEQ on the report's channel; on a
/// complete message, dispatch it.
pub open spec fn spec_accept_report(st: ServiceState, r: Seq<u8>, now_ms: u64) -> (
    ServiceState,
    Seq<ActionView>,
) {
    let (reassembly1, out) = spec_feed(st.reassembly, r);
    let st1 = ServiceState {
        reassembly: reassembly1,
        packet_at: if reassembly1 is Assembling { Some(now_ms) } else { None },
        ..st
    };
    match out {
        Ok(None) => (st1, Seq::empty()),
        Err(_) => (st1, send_message(error_message(report_cid(r), ERR_INVALID_SEQ))),
        Ok(Some(msg)) => spec_dispatch(st1, msg, now_ms),
    }
}

/// Whether a request forwarded at `t` is overdue at `now_ms`.
pub open spec fn overdue(t: u64, now_ms: u64, timeout_ms: u64) -> bool {
    now_ms >= t && now_ms - t >= timeout_ms
}

/// The packet timeout: once PACKET_TIMEOUT_MS have passed since the last
/// report of a message in progress, abandon the message and answer
/// ERR_MSG_TIMEOUT on its channel.
pub open spec fn spec_packet_timeout(st: ServiceState, now_ms: u64) -> (ServiceState, Seq<ActionView>) {
    match st.reassembly {
        AsmState::Assembling { cid, .. } => {
            if st.packet_at matches Some(t) && overdue(t, now_ms, PACKET_TIMEOUT_MS) {
                (
                    ServiceState { reassembly: AsmState::Idle, packet_at: None, ..st },
                    send_message(error_message(cid, ERR_MSG_TIMEOUT)),
                )
            } else {
                (st, Seq::empty())
            }
        },
        AsmState::Idle => (st, Seq::empty()),
    }
}

/// What a keepalive tick does to the transaction waiting for the client:
/// send KEEPALIVE(UPNEEDED) on its channel, or, once the client timeout has
/// passed since the request was forwarded, ERR_MSG_TIMEOUT, ending the
/// transaction.
pub open spec fn spec_transaction_tick(st: ServiceState, now_ms: u64, timeout_ms: u64) -> (ServiceState, Seq<ActionView>) {
    match st.active_cid {
        None => (st, Seq::empty()),
        Some(cid) => {
            if st.forwarded_at matches Some(t) && overdue(t, now_ms, timeout_ms) {
                (
                    ServiceState {
                        reassembly: AsmState::Idle,
                        active_cid: None,
                        forwarded_at: None,
                        packet_at: None,
                        ..st
                    },
                    send_message(error_message(cid, ERR_MSG_TIMEOUT)),
                )
            } else {
                (st, send_message(keepalive_message(cid, STATUS_UPNEEDED)))
            }
        },
    }
}

/// What the service does on a keepalive tick at `now_ms`: first the packet
/// timeout of a message in progress, then the tick of the transaction that
/// waits for the client.
pub open spec fn spec_keepalive_tick(st: ServiceState, now_ms: u64, timeout_ms: u64) -> (ServiceState, Seq<ActionView>) {
    let (st1, a1) = spec_packet_timeout(st, now_ms);
    let (st2, a2) = spec_transaction_tick(st1, now_ms, timeout_ms);
    (st2, a1 + a2)
}

/// The message that carries the client's answer to the browser on channel
/// `cid`: a one-byte CBOR status when the frame carries an error code,
/// otherwise the frame's command and payload.
pub open spec fn client_answer_message(cid: u32, f: FrameView) -> HidMessage {
    if f.error_code != 0 {
        HidMessage { cid, cmd: CTAPHID_CBOR, payload: seq![(f.error_code & 0xFF) as u8] }
    } else {
        HidMessage { cid, cmd: f.command as u8, payload: f.payload }
    }
}

/// What the service does with a response frame from the client: forward it
/// to the browser on the active channel and end the transaction. It fails,
/// changing nothing, when the answer cannot be framed.
pub open spec fn spec_client_response(st: ServiceState, f: FrameView) -> Result<(ServiceState, Seq<ActionView>), CtapHidError> {
    match st.active_cid {
        None => Ok((ServiceState { forwarded_at: None, ..st }, Seq::empty())),
        Some(cid) => {
            let m = client_answer_message(cid, f);
            if m.payload.len() > MAX_PAYLOAD_SIZE {
                Err(CtapHidError::PayloadTooLarge { size: m.payload.len() as usize, max: MAX_PAYLOAD_SIZE })
            } else {
                Ok(
                    (
                        ServiceState {
                            reassembly: AsmState::Idle,
                            active_cid: None,
                            forwarded_at: None,
                            packet_at: None,
                            ..st
                        },
                        send_message(m),
                    ),
                )
            }
        },
    }
}

/// Append the reports of `msg` to `acts` as device writes.
fn send_ctaphid(acts: &mut Vec<ServiceAction>, msg: &CtapHidMessage) -> (r: Result<(), CtapHidError>)
    ensures
        r is Ok <==> msg.payload.len() <= MAX_PAYLOAD_SIZE,
        r is Ok ==> actions_view(final(acts)@) == actions_view(old(acts)@) + send_message(msg@),
        r matches Err(e) ==> e == (CtapHidError::PayloadTooLarge { size: msg.payload.len(), max: MAX_PAYLOAD_SIZE }),
        r is Err ==> final(acts)@ == old(acts)@,
{
    let packets = match fragment(msg) {
        Ok(ps) => ps,
        Err(e) => return Err(e),
    };
    let ghost a0 = actions_view(acts@);
    let ghost expected = send_message(msg@);
    let mut i: usize = 0;
    while i < packets.len()
        invariant
            0 <= i <= packets@.len(),
            packets@.len() == expected.len(),
            forall|j: int| 0 <= j < packets@.len() ==> (#[trigger] packets@[j])@ == fragment_packet(msg@, j),
            expected == send_message(msg@),
            actions_view(acts@) == a0 + expected.take(i as int),
        decreases packets@.len() - i,
    {
        let ghost before = acts@;
        assert(fragment_packets(msg@)[i as int] == fragment_packet(msg@, i as int));
        assert(expected[i as int] == ActionView::Report(packets@[i as int]@));
        acts.push(ServiceAction::WriteReport(packets[i]));
        assert(acts@ == before.push(ServiceAction::WriteReport(packets@[i as int])));
        assert(actions_view(acts@) =~= actions_view(before).push(ActionView::Report(packets@[i as int]@)));
        i = i + 1;
        assert(actions_view(acts@) =~= a0 + expected.take(i as int));
    }
    assert(expected.take(i as int) =~= expected);
    Ok(())
}

/// Append the reports of a message whose payload fits in CTAPHID.
fn send_small(acts: &mut Vec<ServiceAction>, msg: &CtapHidMessage)
    requires
        msg.payload.len() <= MAX_PAYLOAD_SIZE,
    ensures
        actions_view(final(acts)@) == actions_view(old(acts)@) + send_message(msg@),
{
    let r = send_ctaphid(acts, msg);
    assert(r is Ok);
}

/// The remote CTAP service: a reassembler for the browser's reports, the
/// channel allocator, and the single CBOR transaction waiting for the client.
pub struct CtapService {
    assembler: CtapHidAssembler,
    next_cid: u32,
    active_cid: Option<u32>,
    forwarded_at: Option<u64>,
    packet_at: Option<u64>,
    config: CtapServiceConfig,
}

impl View for CtapService {
    type V = ServiceState;

    closed spec fn view(&self) -> ServiceState {
        ServiceState {
            reassembly: self.assembler@,
            next_cid: self.next_cid,
            active_cid: self.active_cid,
            forwarded_at: self.forwarded_at,
            packet_at: self.packet_at,
        }
    }
}

impl CtapService {
    /// The service's state is one it can reach.
    pub closed spec fn wf(&self) -> bool {
        &&& self.assembler.wf()
        &&& service_state_wf(self@)
    }

    /// The client timeout this service was made with.
    pub closed spec fn timeout_ms(&self) -> u64 {
        self.config.client_timeout_ms
    }

    /// The keepalive interval this service was made with.
    pub closed spec fn interval_ms(&self) -> u64 {
        self.config.keepalive_interval_ms
    }

    /// A service that has allocated no channel and waits for nothing.
    pub fn new(config: CtapServiceConfig) -> (r: Self)
        ensures
            r.wf(),
            r@ == (ServiceState {
                reassembly: AsmState::Idle,
                next_cid: 1,
                active_cid: None,
                forwarded_at: None,
                packet_at: None,
            }),
            r.timeout_ms() == config.client_timeout_ms,
            r.interval_ms() == config.keepalive_interval_ms,
    {
        CtapService {
            assembler: CtapHidAssembler::new(),
            next_cid: 1,
            active_cid: None,
            forwarded_at: None,
            packet_at: None,
            config,
        }
    }

    /// The channel of the transaction waiting for the client, if any.
    pub fn active_cid(&self) -> (r: Option<u32>)
        ensures
            r == self@.active_cid,
    {
        self.active_cid
    }

    /// The client timeout this service was made with.
    pub fn client_timeout_ms(&self) -> (r: u64)
        ensures
            r == self.timeout_ms(),
    {
        self.config.client_timeout_ms
    }

    /// The keepalive interval this service was made with.
    pub fn keepalive_interval_ms(&self) -> (r: u64)
        ensures
            r == self.interval_ms(),
    {
        self.config.keepalive_interval_ms
    }

    fn handle_init(&mut self, acts: &mut Vec<ServiceAction>, msg: &CtapHidMessage)
        requires
            old(self).wf(),
            msg.cmd == CTAPHID_INIT,
        ensures
            final(self).wf(),
            final(self).timeout_ms() == old(self).timeout_ms(),
            (final(self)@, actions_view(final(acts)@).skip(old(acts)@.len() as int)) == spec_handle_init(old(self)@, msg@),
            actions_view(final(acts)@).take(old(acts)@.len() as int) == actions_view(old(acts)@),
    {
        let ghost a0 = actions_view(acts@);
        if msg.payload.len() < 8 {
            let e = CtapHidMessage::error(msg.cid, ERR_INVALID_LEN);
            send_small(acts, &e);
            assert(actions_view(acts@).skip(a0.len() as int) =~= send_message(error_message(msg.cid, ERR_INVALID_LEN)));
            assert(actions_view(acts@).take(a0.len() as int) =~= a0);
            return;
        }
        let nonce: [u8; 8] = [
            msg.payload[0],
            msg.payload[1],
            msg.payload[2],
            msg.payload[3],
            msg.payload[4],
            msg.payload[5],
            msg.payload[6],
            msg.payload[7],
        ];
        assert(nonce@ =~= msg.payload@.take(8));
        let allocated_cid = self.next_cid;
        self.next_cid = self.next_cid + 1;
        if self.next_cid == 0 || self.next_cid == BROADCAST_CID {
            self.next_cid = 1;
        }
        let resp = CtapHidMessage::init_response(&nonce, allocated_cid, INIT_CAPABILITIES);
        send_small(acts, &resp);
        assert(resp@ == init_response_message(msg.payload@.take(8), allocated_cid, INIT_CAPABILITIES));
        assert(actions_view(acts@).skip(a0.len() as int) =~= send_message(resp@));
        assert(actions_view(acts@).take(a0.len() as int) =~= a0);
    }

    /// Handle one output report written by the browser to the virtual device
    /// at time `now_ms`.
    pub fn handle_uhid_report(&mut self, report: &[u8; HID_REPORT_SIZE], now_ms: u64) -> (r: Vec<ServiceAction>)
        requires
            old(self).wf(),
        ensures
            final(self).wf(),
            final(self).timeout_ms() == old(self).timeout_ms(),
            (final(self)@, actions_view(r@)) == spec_handle_report(old(self)@, report@, now_ms),
    {
        let mut acts: Vec<ServiceAction> = Vec::new();
        self.expire_stalled_message(&mut acts, now_ms);
        let ghost a0 = actions_view(acts@);
        let mut rest = self.accept_report(report, now_ms);
        let ghost a1 = actions_view(rest@);
        acts.append(&mut rest);
        assert(actions_view(acts@) =~= a0 + a1);
        acts
    }

    /// Abandon a message in progress whose last report came PACKET_TIMEOUT_MS
    /// or more before `now_ms`, appending ERR_MSG_TIMEOUT on its channel.
    fn expire_stalled_message(&mut self, acts: &mut Vec<ServiceAction>, now_ms: u64)
        requires
            old(self).wf(),
        ensures
            final(self).wf(),
            final(self).timeout_ms() == old(self).timeout_ms(),
            final(self)@ == spec_packet_timeout(old(self)@, now_ms).0,
            actions_view(final(acts)@) == actions_view(old(acts)@) + spec_packet_timeout(old(self)@, now_ms).1,
    {
        let ghost a0 = actions_view(acts@);
        if let Some(cid) = self.assembler.assembling_cid() {
            if let Some(t) = self.packet_at {
                if now_ms >= t && now_ms - t >= PACKET_TIMEOUT_MS {
                    let e = CtapHidMessage::error(cid, ERR_MSG_TIMEOUT);
                    send_small(acts, &e);
                    self.assembler.reset();
                    self.packet_at = None;
                    return;
                }
            }
        }
        assert(a0 + Seq::<ActionView>::empty() =~= a0);
    }

    fn accept_report(&mut self, report: &[u8; HID_REPORT_SIZE], now_ms: u64) -> (r: Vec<ServiceAction>)
        requires
            old(self).wf(),
        ensures
            final(self).wf(),
            final(self).timeout_ms() == old(self).timeout_ms(),
            (final(self)@, actions_view(r@)) == spec_accept_report(old(self)@, report@, now_ms),
    {
        let ghost st0 = self@;
        let mut acts: Vec<ServiceAction> = Vec::new();
        let fed = self.assembler.feed(report);
        self.packet_at = if self.assembler.is_busy() { Some(now_ms) } else { None };
        let msg = match fed {
            Ok(Some(msg)) => msg,
            Ok(None) => {
                assert(actions_view(acts@) =~= Seq::<ActionView>::empty());
                return acts;
            },
            Err(_) => {
                let cid = parse_cid(report);
                let e = CtapHidMessage::error(cid, ERR_INVALID_SEQ);
                send_small(&mut acts, &e);
                self.assembler.reset();
                assert(actions_view(acts@) =~= send_message(e@));
                return acts;
            },
        };
        let ghost st1 = self@;
        assert(st1 == ServiceState {
            reassembly: spec_feed(st0.reassembly, report@).0,
            packet_at: None,
            ..st0
        });
        if msg.cmd == CTAPHID_INIT {
            self.handle_init(&mut acts, &msg);
            assert(actions_view(acts@).skip(0) =~= actions_view(acts@));
        } else if msg.cmd == CTAPHID_PING {
            let payload = msg.payload;
            let resp = CtapHidMessage::ping_response(msg.cid, payload);
            send_small(&mut acts, &resp);
            assert(actions_view(acts@) =~= send_message(resp@));
        } else if msg.cmd == CTAPHID_CBOR {
            if self.active_cid.is_some() {
                let e = CtapHidMessage::error(msg.cid, ERR_CHANNEL_BUSY);
                send_small(&mut acts, &e);
                assert(actions_view(acts@) =~= send_message(e@));
            } else if !is_allowed_ctap2_command(msg.payload.as_slice()) {
                let e = CtapHidMessage::error(msg.cid, ERR_INVALID_CMD);
                send_small(&mut acts, &e);
                assert(actions_view(acts@) =~= send_message(e@));
            } else {
                self.active_cid = Some(msg.cid);
                self.forwarded_at = Some(now_ms);
                let frame = CtapFrame {
                    command: CTAPHID_CBOR as u32,
                    payload: msg.payload,
                    is_response: false,
                    error_code: 0,
                };
                acts.push(ServiceAction::SendToPeer(frame));
                assert(actions_view(acts@) =~= seq![ActionView::Peer(cbor_request_frame(msg@.payload))]);
            }
        } else if msg.cmd == CTAPHID_CANCEL {
            if self.active_cid == Some(msg.cid) {
                let frame = CtapFrame {
                    command: CTAPHID_CANCEL as u32,
                    payload: Vec::new(),
                    is_response: false,
                    error_code: 0,
                };
                acts.push(ServiceAction::SendToPeer(frame));
                self.active_cid = None;
                self.forwarded_at = None;
                assert(actions_view(acts@) =~= seq![ActionView::Peer(cancel_request_frame())]);
            } else {
                assert(actions_view(acts@) =~= Seq::<ActionView>::empty());
            }
        } else {
            let e = CtapHidMessage::error(msg.cid, ERR_INVALID_CMD);
            send_small(&mut acts, &e);
            assert(actions_view(acts@) =~= send_message(e@));
        }
        acts
    }

    /// Handle a keepalive tick at time `now_ms`.
    pub fn handle_keepalive_tick(&mut self, now_ms: u64) -> (r: Vec<ServiceAction>)
        requires
            old(self).wf(),
        ensures
            final(self).wf(),
            final(self).timeout_ms() == old(self).timeout_ms(),
            (final(self)@, actions_view(r@)) == spec_keepalive_tick(old(self)@, now_ms, old(self).timeout_ms()),
    {
        let ghost st0 = self@;
        let mut acts: Vec<ServiceAction> = Vec::new();
        assert(actions_view(acts@) =~= Seq::<ActionView>::empty());
        self.expire_stalled_message(&mut acts, now_ms);
        let ghost st1 = self@;
        let ghost a1 = actions_view(acts@);
        assert((st1, a1) == spec_packet_timeout(st0, now_ms));
        if let Some(cid) = self.active_cid {
            if let Some(t) = self.forwarded_at {
                if now_ms >= t && now_ms - t >= self.config.client_timeout_ms {
                    let e = CtapHidMessage::error(cid, ERR_MSG_TIMEOUT);
                    send_small(&mut acts, &e);
                    self.active_cid = None;
                    self.forwarded_at = None;
                    self.packet_at = None;
                    self.assembler.reset();
                    return acts;
                }
            }
            let ka = CtapHidMessage::keepalive(cid, STATUS_UPNEEDED);
            send_small(&mut acts, &ka);
        } else {
            assert(actions_view(acts@) =~= a1 + Seq::<ActionView>::empty());
        }
        acts
    }

    /// Whether the service needs keepalive ticks: while a transaction waits
    /// for the client, or a message is being reassembled.
    pub fn needs_tick(&self) -> (r: bool)
        ensures
            r == (self@.active_cid is Some || self@.reassembly is Assembling),
    {
        self.active_cid.is_some() || self.assembler.is_busy()
    }

    /// Handle a response frame from the client.
    pub fn handle_client_response(&mut self, frame: CtapFrame) -> (r: Result<Vec<ServiceAction>, CtapHidError>)
        requires
            old(self).wf(),
        ensures
            final(self).wf(),
            final(self).timeout_ms() == old(self).timeout_ms(),
            match spec_client_response(old(self)@, frame@) {
                Ok((st, acts)) => r matches Ok(v) && final(self)@ == st && actions_view(v@) == acts,
                Err(e) => r == Err::<Vec<ServiceAction>, CtapHidError>(e) && final(self)@ == old(self)@,
            },
    {
        let mut acts: Vec<ServiceAction> = Vec::new();
        let cid = match self.active_cid {
            Some(cid) => cid,
            None => {
                self.forwarded_at = None;
                assert(actions_view(acts@) =~= Seq::<ActionView>::empty());
                return Ok(acts);
            },
        };
        let ghost fv = frame@;
        let resp = if frame.error_code != 0 {
            let error_byte = (frame.error_code & 0xFF) as u8;
            let payload = vec![error_byte];
            CtapHidMessage { cid, cmd: CTAPHID_CBOR, payload }
        } else {
            CtapHidMessage { cid, cmd: frame.command as u8, payload: frame.payload }
        };
        assert(resp@.payload =~= client_answer_message(cid, fv).payload);
        match send_ctaphid(&mut acts, &resp) {
            Ok(()) => {},
            Err(e) => return Err(e),
        }
        self.active_cid = None;
        self.forwarded_at = None;
        self.packet_at = None;
        self.assembler.reset();
        assert(actions_view(acts@) =~= send_message(resp@));
        Ok(acts)
    }
}

} // verus!
