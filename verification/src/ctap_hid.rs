//! CTAPHID framing: assembly and fragmentation of CTAPHID messages carried in
//! 64-byte HID reports (FIDO CTAP 2.1, USB HID transport).
use vstd::prelude::*;

verus! {

/// HID report size for FIDO devices (always 64 bytes).
pub const HID_REPORT_SIZE: usize = 64;

/// Max payload in an initialization packet (64 - 4 CID - 1 CMD - 2 LEN = 57).
pub const INIT_PACKET_DATA_SIZE: usize = 57;

/// Max payload in a continuation packet (64 - 4 CID - 1 SEQ = 59).
pub const CONT_PACKET_DATA_SIZE: usize = 59;

/// Maximum number of continuation packets (SEQ 0x00-0x7F).
pub const MAX_CONT_PACKETS: usize = 128;

/// Maximum total payload size: 57 + 128 * 59 = 7609 bytes.
pub const MAX_PAYLOAD_SIZE: usize = INIT_PACKET_DATA_SIZE + MAX_CONT_PACKETS * CONT_PACKET_DATA_SIZE;

/// Broadcast channel ID (used for CTAPHID_INIT).
pub const BROADCAST_CID: u32 = 0xFFFFFFFF;

// CTAPHID command bytes (without the 0x80 bit, which framing adds).
pub const CTAPHID_PING: u8 = 0x01;
pub const CTAPHID_MSG: u8 = 0x03;
pub const CTAPHID_LOCK: u8 = 0x04;
pub const CTAPHID_INIT: u8 = 0x06;
pub const CTAPHID_WINK: u8 = 0x08;
pub const CTAPHID_CBOR: u8 = 0x10;
pub const CTAPHID_CANCEL: u8 = 0x11;
pub const CTAPHID_KEEPALIVE: u8 = 0x3B;
pub const CTAPHID_ERROR: u8 = 0x3F;

// KEEPALIVE status codes.
pub const STATUS_PROCESSING: u8 = 0x01;
pub const STATUS_UPNEEDED: u8 = 0x02;

// CTAPHID error codes.
pub const ERR_INVALID_CMD: u8 = 0x01;
pub const ERR_INVALID_PAR: u8 = 0x02;
pub const ERR_INVALID_LEN: u8 = 0x03;
pub const ERR_INVALID_SEQ: u8 = 0x04;
pub const ERR_MSG_TIMEOUT: u8 = 0x05;
pub const ERR_CHANNEL_BUSY: u8 = 0x06;
pub const ERR_LOCK_REQUIRED: u8 = 0x0A;
pub const ERR_INVALID_CHANNEL: u8 = 0x0B;
pub const ERR_OTHER: u8 = 0x7F;

/// CTAP2 commands that are allowed through the tunnel: MakeCredential,
/// GetAssertion, GetInfo, ClientPIN, GetNextAssertion and Selection.
/// Reset (0x07), BioEnrollment (0x09), CredentialManagement (0x0A) and
/// Config (0x0D) are blocked.
pub const ALLOWED_CTAP2_COMMANDS: [u8; 6] = [0x01, 0x02, 0x04, 0x06, 0x08, 0x0B];

/// The CTAP2 command bytes that may cross the tunnel.
pub open spec fn is_allowed_command_byte(b: u8) -> bool {
    b == 0x01 || b == 0x02 || b == 0x04 || b == 0x06 || b == 0x08 || b == 0x0B
}

/// A CTAP2 payload may cross the tunnel iff it is non-empty and its first
/// byte (the CTAP2 command) is on the allow list.
pub open spec fn spec_allowed_ctap2_payload(payload: Seq<u8>) -> bool {
    payload.len() > 0 && is_allowed_command_byte(payload[0])
}

pub fn is_allowed_ctap2_command(payload: &[u8]) -> (r: bool)
    ensures
        r == spec_allowed_ctap2_payload(payload@),
{
    if payload.len() == 0 {
        return false;
    }
    let cmd = payload[0];
    let allowed = ALLOWED_CTAP2_COMMANDS;
    let mut i: usize = 0;
    while i < 6
        invariant
            0 <= i <= 6,
            payload@.len() > 0,
            cmd == payload@[0],
            allowed@ == seq![0x01u8, 0x02u8, 0x04u8, 0x06u8, 0x08u8, 0x0Bu8],
            forall|j: int| 0 <= j < i ==> allowed@[j] != cmd,
        decreases 6 - i,
    {
        if allowed[i] == cmd {
            assert(allowed@[i as int] == cmd);
            assert(i == 0 || i == 1 || i == 2 || i == 3 || i == 4 || i == 5);
            return true;
        }
        i = i + 1;
    }
    false
}

/// Framing errors.
#[derive(Debug)]
pub enum CtapHidError {
    /// A continuation packet arrived while no message was being assembled.
    ExpectedInitPacket,
    /// A continuation packet carried the wrong sequence number.
    InvalidSequence { expected: u8, got: u8 },
    /// A continuation packet arrived on another channel.
    CidMismatch { expected: u32, got: u32 },
    /// The payload exceeds what CTAPHID can carry.
    PayloadTooLarge { size: usize, max: usize },
    /// A report that is not 64 bytes long.
    InvalidReportSize(usize),
}

/// A fully reassembled CTAPHID message.
#[derive(Debug, Clone)]
pub struct CtapHidMessage {
    /// Channel ID (4 bytes, big-endian on wire).
    pub cid: u32,
    /// Command byte (without the 0x80 flag).
    pub cmd: u8,
    /// Complete payload (reassembled from all packets).
    pub payload: Vec<u8>,
}

/// The mathematical value of a CTAPHID message.
pub struct HidMessage {
    pub cid: u32,
    pub cmd: u8,
    pub payload: Seq<u8>,
}

impl View for CtapHidMessage {
    type V = HidMessage;

    open spec fn view(&self) -> HidMessage {
        HidMessage { cid: self.cid, cmd: self.cmd, payload: self.payload@ }
    }
}

/// The value of four big-endian bytes.
pub open spec fn be_u32(b0: u8, b1: u8, b2: u8, b3: u8) -> u32 {
    (b0 as int * 0x1000000 + b1 as int * 0x10000 + b2 as int * 0x100 + b3 as int) as u32
}

/// The big-endian bytes of a `u32`.
pub open spec fn u32_be_bytes(v: u32) -> Seq<u8> {
    seq![(v / 0x1000000) as u8, ((v / 0x10000) % 0x100) as u8, ((v / 0x100) % 0x100) as u8, (v % 0x100) as u8]
}

/// The channel ID in the first four bytes of a report.
pub open spec fn report_cid(r: Seq<u8>) -> u32 {
    be_u32(r[0], r[1], r[2], r[3])
}

pub open spec fn min_int(a: int, b: int) -> int {
    if a <= b { a } else { b }
}

/// Number of continuation packets that a payload of `len` bytes needs.
pub open spec fn num_cont_packets(len: int) -> int {
    if len <= 57 { 0 } else { (len - 57 + 58) / 59 }
}

/// Number of reports that a payload of `len` bytes is fragmented into.
pub open spec fn fragment_count(len: int) -> int {
    1 + num_cont_packets(len)
}

/// Offset in the payload of the data carried by continuation packet `k`.
pub open spec fn cont_offset(k: int) -> int {
    57 + 59 * k
}

/// The initialization report of a message: CID, command with bit 7 set,
/// big-endian length, then the first (at most 57) payload bytes, zero padded.
pub open spec fn init_packet(m: HidMessage) -> Seq<u8> {
    let len = m.payload.len() as int;
    Seq::new(
        64,
        |i: int|
            if i < 4 {
                u32_be_bytes(m.cid)[i]
            } else if i == 4 {
                m.cmd | 0x80
            } else if i == 5 {
                (len / 256) as u8
            } else if i == 6 {
                (len % 256) as u8
            } else if i - 7 < min_int(len, 57) {
                m.payload[i - 7]
            } else {
                0
            },
    )
}

/// Continuation report `k`: CID, sequence number `k`, then the next (at most
/// 59) payload bytes, zero padded.
pub open spec fn cont_packet(m: HidMessage, k: int) -> Seq<u8> {
    let len = m.payload.len() as int;
    Seq::new(
        64,
        |i: int|
            if i < 4 {
                u32_be_bytes(m.cid)[i]
            } else if i == 4 {
                k as u8
            } else if i - 5 < min_int(len - cont_offset(k), 59) {
                m.payload[cont_offset(k) + i - 5]
            } else {
                0
            },
    )
}

/// Report `j` of the fragmentation of `m`.
pub open spec fn fragment_packet(m: HidMessage, j: int) -> Seq<u8> {
    if j == 0 { init_packet(m) } else { cont_packet(m, j - 1) }
}

/// All reports of the fragmentation of `m`, in order.
pub open spec fn fragment_packets(m: HidMessage) -> Seq<Seq<u8>> {
    Seq::new(fragment_count(m.payload.len() as int) as nat, |j: int| fragment_packet(m, j))
}

/// Continuation report `k` exists exactly when its offset is inside the
/// payload, and a payload that fits needs at most 128 of them.
pub(crate) proof fn lemma_num_cont_packets(len: int, k: int)
    requires
        0 <= len,
        0 <= k,
    ensures
        k < num_cont_packets(len) <==> cont_offset(k) < len,
        len <= MAX_PAYLOAD_SIZE ==> num_cont_packets(len) <= 128,
{
    if len > 57 {
        let d = len - 57;
        assert(k < (d + 58) / 59 <==> 59 * k < d) by (nonlinear_arith)
            requires
                d > 0,
                k >= 0,
        ;
    }
}

fn cid_bytes(cid: u32) -> (b: [u8; 4])
    ensures
        b@ == u32_be_bytes(cid),
{
    let b = [(cid / 0x1000000) as u8, ((cid / 0x10000) % 0x100) as u8, ((cid / 0x100) % 0x100) as u8, (cid % 0x100) as u8];
    assert(b@ =~= u32_be_bytes(cid));
    b
}

fn build_init_packet(msg: &CtapHidMessage) -> (p: [u8; HID_REPORT_SIZE])
    requires
        msg.payload.len() <= MAX_PAYLOAD_SIZE,
    ensures
        p@ == init_packet(msg@),
{
    let ghost m = msg@;
    let len = msg.payload.len();
    let cb = cid_bytes(msg.cid);
    let mut p = [0u8; HID_REPORT_SIZE];
    p[0] = cb[0];
    p[1] = cb[1];
    p[2] = cb[2];
    p[3] = cb[3];
    p[4] = msg.cmd | 0x80;
    p[5] = (len / 256) as u8;
    p[6] = (len % 256) as u8;
    let n = if len < INIT_PACKET_DATA_SIZE { len } else { INIT_PACKET_DATA_SIZE };
    let mut i: usize = 0;
    while i < n
        invariant
            n == min_int(len as int, 57),
            len == msg.payload.len(),
            len <= MAX_PAYLOAD_SIZE,
            m == msg@,
            0 <= i <= n,
            p@.len() == 64,
            forall|t: int|
                0 <= t < 64 ==> #[trigger] p@[t] == (if t < 7 {
                    init_packet(m)[t]
                } else if t - 7 < i {
                    m.payload[t - 7]
                } else {
                    0u8
                }),
        decreases n - i,
    {
        p[7 + i] = msg.payload[i];
        i = i + 1;
    }
    assert(p@ =~= init_packet(m));
    p
}

fn build_cont_packet(msg: &CtapHidMessage, k: usize) -> (p: [u8; HID_REPORT_SIZE])
    requires
        k < 128,
        cont_offset(k as int) < msg.payload.len(),
        msg.payload.len() <= MAX_PAYLOAD_SIZE,
    ensures
        p@ == cont_packet(msg@, k as int),
{
    let ghost m = msg@;
    let len = msg.payload.len();
    let offset = 57 + 59 * k;
    let cb = cid_bytes(msg.cid);
    let mut p = [0u8; HID_REPORT_SIZE];
    p[0] = cb[0];
    p[1] = cb[1];
    p[2] = cb[2];
    p[3] = cb[3];
    p[4] = k as u8;
    let rest = len - offset;
    let n = if rest < CONT_PACKET_DATA_SIZE { rest } else { CONT_PACKET_DATA_SIZE };
    let mut i: usize = 0;
    while i < n
        invariant
            offset == cont_offset(k as int),
            n == min_int(len - offset, 59),
            offset + n <= len,
            len == msg.payload.len(),
            m == msg@,
            0 <= i <= n,
            p@.len() == 64,
            forall|t: int|
                0 <= t < 64 ==> #[trigger] p@[t] == (if t < 5 {
                    cont_packet(m, k as int)[t]
                } else if t - 5 < i {
                    m.payload[offset + t - 5]
                } else {
                    0u8
                }),
        decreases n - i,
    {
        p[5 + i] = msg.payload[offset + i];
        i = i + 1;
    }
    assert(p@ =~= cont_packet(m, k as int));
    p
}

impl CtapHidMessage {
    /// Create a CTAPHID_INIT response: the 8-byte nonce echoed, the new
    /// channel ID (big-endian), protocol version 2, device version 0.0.0 and
    /// the capability flags, sent on the broadcast channel.
    pub fn init_response(nonce: &[u8; 8], new_cid: u32, capabilities: u8) -> (r: Self)
        ensures
            r.cid == BROADCAST_CID,
            r.cmd == CTAPHID_INIT,
            r.payload@ == nonce@ + u32_be_bytes(new_cid) + seq![2u8, 0u8, 0u8, 0u8, capabilities],
    {
        let mut payload: Vec<u8> = Vec::with_capacity(17);
        let mut i: usize = 0;
        while i < 8
            invariant
                0 <= i <= 8,
                payload@ == nonce@.take(i as int),
            decreases 8 - i,
        {
            payload.push(nonce[i]);
            i = i + 1;
            assert(payload@ =~= nonce@.take(i as int));
        }
        let cb = cid_bytes(new_cid);
        payload.push(cb[0]);
        payload.push(cb[1]);
        payload.push(cb[2]);
        payload.push(cb[3]);
        payload.push(2);  // protocol version
        payload.push(0);  // major version
        payload.push(0);  // minor version
        payload.push(0);  // build version
        payload.push(capabilities);
        assert(payload@ =~= nonce@ + u32_be_bytes(new_cid) + seq![2u8, 0u8, 0u8, 0u8, capabilities]);
        CtapHidMessage { cid: BROADCAST_CID, cmd: CTAPHID_INIT, payload }
    }

    /// Create a CTAPHID_KEEPALIVE message carrying one status byte.
    pub fn keepalive(cid: u32, status: u8) -> (r: Self)
        ensures
            r.cid == cid,
            r.cmd == CTAPHID_KEEPALIVE,
            r.payload@ == seq![status],
    {
        let payload = vec![status];
        assert(payload@ =~= seq![status]);
        CtapHidMessage { cid, cmd: CTAPHID_KEEPALIVE, payload }
    }

    /// Create a CTAPHID_ERROR message carrying one error code.
    pub fn error(cid: u32, error_code: u8) -> (r: Self)
        ensures
            r.cid == cid,
            r.cmd == CTAPHID_ERROR,
            r.payload@ == seq![error_code],
    {
        let payload = vec![error_code];
        assert(payload@ =~= seq![error_code]);
        CtapHidMessage { cid, cmd: CTAPHID_ERROR, payload }
    }

    /// Create a CTAPHID_PING response that echoes `data`.
    pub fn ping_response(cid: u32, data: Vec<u8>) -> (r: Self)
        ensures
            r.cid == cid,
            r.cmd == CTAPHID_PING,
            r.payload@ == data@,
    {
        CtapHidMessage { cid, cmd: CTAPHID_PING, payload: data }
    }
}

/// The state of a CTAPHID reassembler: idle, or in the middle of a
/// multi-packet message.
pub enum AsmState {
    Idle,
    Assembling { cid: u32, cmd: u8, expected_len: nat, buffer: Seq<u8>, next_seq: u8 },
}

/// What a reassembler in the middle of a message can hold: a declared length
/// that needs continuation packets, and every full continuation so far.
pub open spec fn asm_state_wf(s: AsmState) -> bool {
    match s {
        AsmState::Idle => true,
        AsmState::Assembling { expected_len, buffer, next_seq, .. } => {
            &&& 57 < expected_len <= MAX_PAYLOAD_SIZE
            &&& buffer.len() == cont_offset(next_seq as int)
            &&& buffer.len() < expected_len
        },
    }
}

/// Whether a report is an initialization packet (bit 7 of byte 4 set).
pub open spec fn is_init_report(r: Seq<u8>) -> bool {
    r[4] & 0x80u8 != 0
}

/// The payload length declared by an initialization report.
pub open spec fn declared_len(r: Seq<u8>) -> int {
    r[5] as int * 256 + r[6] as int
}

/// The outcome of feeding one report, as values.
pub open spec fn feed_result_view(r: Result<Option<CtapHidMessage>, CtapHidError>) -> Result<
    Option<HidMessage>,
    CtapHidError,
> {
    match r {
        Ok(Some(m)) => Ok(Some(m@)),
        Ok(None) => Ok(None),
        Err(e) => Err(e),
    }
}

/// One step of CTAPHID reassembly: the next state and the outcome of feeding
/// report `r` to a reassembler in state `s`. An initialization packet always
/// starts a new message (abandoning any partial one); every error and every
/// completed message leaves the reassembler idle.
pub open spec fn spec_feed(s: AsmState, r: Seq<u8>) -> (AsmState, Result<Option<HidMessage>, CtapHidError>) {
    let cid = report_cid(r);
    if is_init_report(r) {
        let cmd = r[4] & 0x7fu8;
        let total = declared_len(r);
        if total > MAX_PAYLOAD_SIZE {
            (AsmState::Idle, Err(CtapHidError::PayloadTooLarge { size: total as usize, max: MAX_PAYLOAD_SIZE }))
        } else if total <= 57 {
            (AsmState::Idle, Ok(Some(HidMessage { cid, cmd, payload: r.subrange(7, 7 + total) })))
        } else {
            (
                AsmState::Assembling {
                    cid,
                    cmd,
                    expected_len: total as nat,
                    buffer: r.subrange(7, 64),
                    next_seq: 0,
                },
                Ok(None),
            )
        }
    } else {
        match s {
            AsmState::Idle => (AsmState::Idle, Err(CtapHidError::ExpectedInitPacket)),
            AsmState::Assembling { cid: ecid, cmd, expected_len, buffer, next_seq } => {
                if cid != ecid {
                    (AsmState::Idle, Err(CtapHidError::CidMismatch { expected: ecid, got: cid }))
                } else if r[4] != next_seq {
                    (AsmState::Idle, Err(CtapHidError::InvalidSequence { expected: next_seq, got: r[4] }))
                } else {
                    let take = min_int(expected_len - buffer.len(), 59);
                    let nb = buffer + r.subrange(5, 5 + take);
                    if nb.len() >= expected_len {
                        (AsmState::Idle, Ok(Some(HidMessage { cid: ecid, cmd, payload: nb })))
                    } else {
                        (
                            AsmState::Assembling {
                                cid: ecid,
                                cmd,
                                expected_len,
                                buffer: nb,
                                next_seq: (next_seq + 1) as u8,
                            },
                            Ok(None),
                        )
                    }
                }
            },
        }
    }
}

/// State machine for reassembling multi-packet CTAPHID messages.
pub struct CtapHidAssembler {
    current_cid: Option<u32>,
    current_cmd: u8,
    expected_len: usize,
    buffer: Vec<u8>,
    next_seq: u8,
}

impl View for CtapHidAssembler {
    type V = AsmState;

    closed spec fn view(&self) -> AsmState {
        match self.current_cid {
            None => AsmState::Idle,
            Some(cid) => AsmState::Assembling {
                cid,
                cmd: self.current_cmd,
                expected_len: self.expected_len as nat,
                buffer: self.buffer@,
                next_seq: self.next_seq,
            },
        }
    }
}

impl CtapHidAssembler {
    /// The reassembler's state is one that reassembly can reach.
    pub closed spec fn wf(&self) -> bool {
        asm_state_wf(self@)
    }

    /// A new reassembler, idle.
    pub fn new() -> (r: Self)
        ensures
            r.wf(),
            r@ == AsmState::Idle,
    {
        CtapHidAssembler { current_cid: None, current_cmd: 0, expected_len: 0, buffer: Vec::new(), next_seq: 0 }
    }

    /// Feed a 64-byte HID report to the reassembler.
    ///
    /// Returns `Ok(Some(msg))` when a complete message is assembled,
    /// `Ok(None)` when more packets are needed, or `Err` on a framing error.
    /// On error, and after a complete message, the reassembler is idle.
    pub fn feed(&mut self, report: &[u8; HID_REPORT_SIZE]) -> (r: Result<Option<CtapHidMessage>, CtapHidError>)
        requires
            old(self).wf(),
        ensures
            final(self).wf(),
            (final(self)@, feed_result_view(r)) == spec_feed(old(self)@, report@),
    {
        let ghost s0 = self@;
        let cid = parse_cid(report);
        if is_init_packet(report) {
            let cmd = report[4] & 0x7F;
            let total_len = (report[5] as usize) * 256 + (report[6] as usize);
            if total_len > MAX_PAYLOAD_SIZE {
                self.reset();
                return Err(CtapHidError::PayloadTooLarge { size: total_len, max: MAX_PAYLOAD_SIZE });
            }
            let data_in_init = if total_len < INIT_PACKET_DATA_SIZE { total_len } else { INIT_PACKET_DATA_SIZE };
            let mut buffer: Vec<u8> = Vec::with_capacity(total_len);
            let mut i: usize = 0;
            while i < data_in_init
                invariant
                    data_in_init <= 57,
                    0 <= i <= data_in_init,
                    buffer@ == report@.subrange(7, 7 + i as int),
                decreases data_in_init - i,
            {
                buffer.push(report[7 + i]);
                i = i + 1;
                assert(buffer@ =~= report@.subrange(7, 7 + i as int));
            }
            if buffer.len() >= total_len {
                self.reset();
                let msg = CtapHidMessage { cid, cmd, payload: buffer };
                assert(msg@.payload =~= report@.subrange(7, 7 + declared_len(report@)));
                return Ok(Some(msg));
            }
            self.current_cid = Some(cid);
            self.current_cmd = cmd;
            self.expected_len = total_len;
            self.buffer = buffer;
            self.next_seq = 0;
            return Ok(None);
        }
        let expected_cid = match self.current_cid {
            Some(c) => c,
            None => {
                self.reset();
                return Err(CtapHidError::ExpectedInitPacket);
            },
        };
        if cid != expected_cid {
            self.reset();
            return Err(CtapHidError::CidMismatch { expected: expected_cid, got: cid });
        }
        let seq = report[4];
        if seq != self.next_seq {
            let expected = self.next_seq;
            self.reset();
            return Err(CtapHidError::InvalidSequence { expected, got: seq });
        }
        let remaining = self.expected_len - self.buffer.len();
        let data_in_cont = if remaining < CONT_PACKET_DATA_SIZE { remaining } else { CONT_PACKET_DATA_SIZE };
        let ghost b0 = self.buffer@;
        let ghost el = self.expected_len;
        let ghost cm = self.current_cmd;
        let ghost ns = self.next_seq;
        assert(ns < 128);
        let mut i: usize = 0;
        while i < data_in_cont
            invariant
                data_in_cont <= 59,
                0 <= i <= data_in_cont,
                self.buffer@ == b0 + report@.subrange(5, 5 + i as int),
                self.current_cid == Some(expected_cid),
                b0.len() + data_in_cont <= self.expected_len,
                self.expected_len <= MAX_PAYLOAD_SIZE,
                self.expected_len == el,
                self.current_cmd == cm,
                self.next_seq == ns,
                ns < 128,
                data_in_cont == min_int(el - b0.len(), 59),
                b0.len() == cont_offset(ns as int),
            decreases data_in_cont - i,
        {
            self.buffer.push(report[5 + i]);
            i = i + 1;
            assert(self.buffer@ =~= b0 + report@.subrange(5, 5 + i as int));
        }
        self.next_seq = self.next_seq + 1;
        if self.buffer.len() >= self.expected_len {
            let mut payload: Vec<u8> = Vec::new();
            std::mem::swap(&mut payload, &mut self.buffer);
            let msg = CtapHidMessage { cid: expected_cid, cmd: self.current_cmd, payload };
            self.reset();
            return Ok(Some(msg));
        }
        Ok(None)
    }

    /// Reset the reassembler to idle, discarding any partial message.
    pub fn reset(&mut self)
        ensures
            final(self).wf(),
            final(self)@ == AsmState::Idle,
    {
        self.current_cid = None;
        self.current_cmd = 0;
        self.expected_len = 0;
        self.buffer.clear();
        self.next_seq = 0;
    }

    /// Whether the reassembler is in the middle of a multi-packet message.
    pub fn is_busy(&self) -> (r: bool)
        ensures
            r == (self@ is Assembling),
    {
        self.current_cid.is_some()
    }

    /// The channel of the message being reassembled, if any.
    pub fn assembling_cid(&self) -> (r: Option<u32>)
        ensures
            r == (match self@ {
                AsmState::Idle => None,
                AsmState::Assembling { cid, .. } => Some(cid),
            }),
    {
        self.current_cid
    }
}

fn is_init_packet(report: &[u8; HID_REPORT_SIZE]) -> (r: bool)
    ensures
        r == is_init_report(report@),
{
    report[4] & 0x80 != 0
}

pub(crate) fn parse_cid(report: &[u8; HID_REPORT_SIZE]) -> (r: u32)
    ensures
        r == report_cid(report@),
{
    (report[0] as u32) * 0x1000000 + (report[1] as u32) * 0x10000 + (report[2] as u32) * 0x100 + (report[3] as u32)
}

/// Fragment a CTAPHID message into 64-byte HID reports: one initialization
/// report followed by as many continuation reports as the payload needs.
pub fn fragment(msg: &CtapHidMessage) -> (r: Result<Vec<[u8; HID_REPORT_SIZE]>, CtapHidError>)
    ensures
        r is Ok <==> msg.payload.len() <= MAX_PAYLOAD_SIZE,
        r matches Ok(ps) ==> {
            &&& ps@.len() == fragment_count(msg.payload.len() as int)
            &&& forall|j: int| 0 <= j < ps@.len() ==> (#[trigger] ps@[j])@ == fragment_packet(msg@, j)
        },
        r matches Err(e) ==> e == (CtapHidError::PayloadTooLarge {
            size: msg.payload.len(),
            max: MAX_PAYLOAD_SIZE,
        }),
{
    let total_len = msg.payload.len();
    if total_len > MAX_PAYLOAD_SIZE {
        return Err(CtapHidError::PayloadTooLarge { size: total_len, max: MAX_PAYLOAD_SIZE });
    }
    let ghost m = msg@;
    let mut packets: Vec<[u8; HID_REPORT_SIZE]> = Vec::new();
    packets.push(build_init_packet(msg));
    let mut offset: usize = if total_len < INIT_PACKET_DATA_SIZE { total_len } else { INIT_PACKET_DATA_SIZE };
    let mut k: usize = 0;
    proof {
        lemma_num_cont_packets(total_len as int, 0);
    }
    while offset < total_len
        invariant
            total_len == msg.payload.len(),
            total_len <= MAX_PAYLOAD_SIZE,
            m == msg@,
            k <= num_cont_packets(total_len as int),
            num_cont_packets(total_len as int) <= 128,
            offset == min_int(total_len as int, cont_offset(k as int)),
            offset < total_len <==> k < num_cont_packets(total_len as int),
            packets@.len() == 1 + k,
            forall|j: int| 0 <= j < packets@.len() ==> (#[trigger] packets@[j])@ == fragment_packet(m, j),
        decreases total_len - offset,
    {
        let p = build_cont_packet(msg, k);
        packets.push(p);
        let rest = total_len - offset;
        let chunk = if rest < CONT_PACKET_DATA_SIZE { rest } else { CONT_PACKET_DATA_SIZE };
        offset = offset + chunk;
        k = k + 1;
        proof {
            lemma_num_cont_packets(total_len as int, k as int);
        }
    }
    Ok(packets)
}

} // verus!
