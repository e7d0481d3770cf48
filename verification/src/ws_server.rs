//! The companion's decisions: which origins may open a session, and how each
//! client message is answered. The caller runs the WebSocket and the relay.
use vstd::prelude::*;
use base64::Engine;
use crate::ctap_hid::{CTAPHID_CBOR, spec_allowed_ctap2_payload, is_allowed_ctap2_command};
use crate::fido_relay::{CTAP1_ERR_OTHER, CTAP2_ERR_KEEPALIVE_CANCEL, CtapRelayResult};
use crate::protocol::{ClientMessage, ServerMessage};

verus! {

/// The port the companion listens on first.
pub const DEFAULT_PORT: u16 = 21118;

/// The port the companion falls back to when the default one fails.
pub const FALLBACK_PORT: u16 = 21119;

/// The origins that may always open a session.
pub open spec fn default_origins() -> Seq<Seq<char>> {
    seq![
        "https://web.rustdesk.com"@,
        "http://localhost"@,
        "https://localhost"@,
        "http://127.0.0.1"@,
        "https://127.0.0.1"@,
    ]
}

pub open spec fn strings_view(v: Seq<String>) -> Seq<Seq<char>> {
    Seq::new(v.len(), |i: int| v[i]@)
}

/// The companion's WebSocket server settings.
pub struct WsServer {
    port: u16,
    allowed_origins: Vec<String>,
}

impl WsServer {
    pub closed spec fn spec_port(&self) -> u16 {
        self.port
    }

    /// The origins this server accepts, as values.
    pub closed spec fn origins(&self) -> Seq<Seq<char>> {
        strings_view(self.allowed_origins@)
    }

    /// A server on `port` that accepts the default origins followed by
    /// `additional_origins`.
    pub fn new(port: u16, additional_origins: Vec<String>) -> (r: Self)
        ensures
            r.spec_port() == port,
            r.origins() == default_origins() + strings_view(additional_origins@),
    {
        let mut allowed_origins: Vec<String> = Vec::new();
        allowed_origins.push(String::from_str("https://web.rustdesk.com"));
        allowed_origins.push(String::from_str("http://localhost"));
        allowed_origins.push(String::from_str("https://localhost"));
        allowed_origins.push(String::from_str("http://127.0.0.1"));
        allowed_origins.push(String::from_str("https://127.0.0.1"));
        assert(strings_view(allowed_origins@) =~= default_origins());
        let mut i: usize = 0;
        while i < additional_origins.len()
            invariant
                0 <= i <= additional_origins@.len(),
                strings_view(allowed_origins@) == default_origins() + strings_view(additional_origins@).take(i as int),
            decreases additional_origins@.len() - i,
        {
            let o = additional_origins[i].clone();
            let ghost before = allowed_origins@;
            allowed_origins.push(o);
            assert(allowed_origins@ == before.push(o));
            assert(strings_view(allowed_origins@) =~= strings_view(before).push(additional_origins@[i as int]@));
            i = i + 1;
            assert(strings_view(allowed_origins@) =~= default_origins() + strings_view(additional_origins@).take(i as int));
        }
        assert(strings_view(additional_origins@).take(i as int) =~= strings_view(additional_origins@));
        WsServer { port, allowed_origins }
    }

    /// The port to listen on.
    pub fn port(&self) -> (r: u16)
        ensures
            r == self.spec_port(),
    {
        self.port
    }

    /// The origins this server accepts.
    pub fn allowed_origins(&self) -> (r: &Vec<String>)
        ensures
            strings_view(r@) == self.origins(),
    {
        &self.allowed_origins
    }
}

pub open spec fn is_ascii_digit(c: char) -> bool {
    '0' <= c && c <= '9'
}

/// A port suffix: a colon followed by one or more decimal digits.
pub open spec fn is_port_suffix(s: Seq<char>) -> bool {
    &&& s.len() > 1
    &&& s[0] == ':'
    &&& forall|i: int| 1 <= i < s.len() ==> is_ascii_digit(#[trigger] s[i])
}

/// Whether Origin `o` is the allowed origin `a`, or `a` followed by a port.
pub open spec fn origin_matches(a: Seq<char>, o: Seq<char>) -> bool {
    o == a || (a.is_prefix_of(o) && is_port_suffix(o.skip(a.len() as int)))
}

/// Whether a WebSocket upgrade request may open a session: it may when it
/// has no Origin header, or when its Origin is an allowed origin, possibly
/// followed by a port. (An Origin header that is not text counts as the
/// empty origin.)
pub open spec fn spec_origin_allowed(origin: Option<Seq<char>>, allowed: Seq<Seq<char>>) -> bool {
    match origin {
        None => true,
        Some(o) => exists|i: int| #![trigger allowed[i]] 0 <= i < allowed.len() && origin_matches(allowed[i], o),
    }
}

fn starts_with(s: &str, prefix: &str) -> (r: bool)
    ensures
        r == prefix@.is_prefix_of(s@),
{
    let n = prefix.unicode_len();
    let m = s.unicode_len();
    if n > m {
        return false;
    }
    let mut i: usize = 0;
    while i < n
        invariant
            n == prefix@.len(),
            m == s@.len(),
            n <= m,
            0 <= i <= n,
            forall|j: int| 0 <= j < i ==> prefix@[j] == s@[j],
        decreases n - i,
    {
        if prefix.get_char(i) != s.get_char(i) {
            assert(s@.subrange(0, n as int)[i as int] != prefix@[i as int]);
            return false;
        }
        i = i + 1;
    }
    assert(prefix@ =~= s@.subrange(0, n as int));
    true
}

/// Decide whether Origin `o` is the allowed origin `a`, possibly followed by
/// a port.
fn matches_origin(a: &str, o: &str) -> (r: bool)
    ensures
        r == origin_matches(a@, o@),
{
    if !starts_with(o, a) {
        assert(o@ != a@);
        return false;
    }
    let n = a.unicode_len();
    let m = o.unicode_len();
    if m == n {
        assert(o@ =~= a@);
        return true;
    }
    let ghost rest = o@.skip(n as int);
    assert(o@ != a@);
    if m == n + 1 {
        assert(!is_port_suffix(rest));
        return false;
    }
    if o.get_char(n) != ':' {
        assert(rest[0] == o@[n as int]);
        assert(!is_port_suffix(rest));
        return false;
    }
    let mut i: usize = n + 1;
    while i < m
        invariant
            n == a@.len(),
            m == o@.len(),
            n + 1 < m,
            n + 1 <= i <= m,
            rest == o@.skip(n as int),
            forall|j: int| n + 1 <= j < i ==> is_ascii_digit(#[trigger] o@[j]),
        decreases m - i,
    {
        let c = o.get_char(i);
        if !('0' <= c && c <= '9') {
            assert(rest[i - n] == c);
            assert(!is_port_suffix(rest));
            return false;
        }
        i = i + 1;
    }
    assert(rest[0] == o@[n as int]);
    assert forall|k: int| 1 <= k < rest.len() implies is_ascii_digit(#[trigger] rest[k]) by {
        assert(rest[k] == o@[n + k]);
    }
    true
}

/// Decide whether an upgrade request with this Origin header may open a
/// session.
pub fn is_origin_allowed(origin: Option<&str>, allowed: &Vec<String>) -> (r: bool)
    ensures
        r == spec_origin_allowed(
            match origin {
                Some(o) => Some(o@),
                None => None,
            },
            strings_view(allowed@),
        ),
{
    let o = match origin {
        None => return true,
        Some(o) => o,
    };
    let ghost av = strings_view(allowed@);
    let mut i: usize = 0;
    while i < allowed.len()
        invariant
            0 <= i <= allowed@.len(),
            av == strings_view(allowed@),
            origin == Some(o),
            forall|j: int| #![trigger av[j]] 0 <= j < i ==> !origin_matches(av[j], o@),
        decreases allowed@.len() - i,
    {
        if matches_origin(allowed[i].as_str(), o) {
            assert(origin_matches(av[i as int], o@));
            assert(spec_origin_allowed(Some(o@), av));
            return true;
        }
        i = i + 1;
    }
    false
}

/// Why a client message could not be handled.
#[derive(Debug)]
pub enum CompanionError {
    /// The relay payload is not valid base64.
    InvalidBase64,
}

#[verifier::external_type_specification]
#[verifier::external_body]
pub struct ExDecodeError(base64::DecodeError);

/// The bytes that the `base64` crate's STANDARD engine decodes from a text,
/// or none when the text is not valid padded base64.
pub uninterp spec fn base64_decoded(text: Seq<char>) -> Option<Seq<u8>>;

/// The text that the `base64` crate's STANDARD engine encodes bytes into.
pub uninterp spec fn base64_encoded(data: Seq<u8>) -> Seq<char>;

/// `base64::engine::general_purpose::STANDARD.decode`: claimed to succeed
/// exactly when the text decodes, with the decoded bytes, both given by
/// `base64_decoded`. Which `DecodeError` comes back is left unsaid.
#[verifier::external_body]
fn base64_decode(text: &str) -> (r: Result<Vec<u8>, base64::DecodeError>)
    ensures
        r is Ok <==> base64_decoded(text@) is Some,
        r matches Ok(v) ==> v@ == base64_decoded(text@).unwrap(),
{
    base64::engine::general_purpose::STANDARD.decode(text)
}

/// `base64::engine::general_purpose::STANDARD.encode`: claimed to return
/// `base64_encoded` of the bytes. It panics when the encoded length
/// overflows `usize`, which the `requires` leaves out.
#[verifier::external_body]
fn base64_encode(data: &[u8]) -> (r: String)
    requires
        data@.len() / 3 * 4 + 4 <= usize::MAX,
    ensures
        r@ == base64_encoded(data@),
{
    base64::engine::general_purpose::STANDARD.encode(data)
}

/// The reply to a relay request that is not forwarded to the key.
pub open spec fn spec_rejection(id: Seq<char>, command: u32) -> (Seq<char>, u32, Seq<char>, u32) {
    (id, command, Seq::empty(), CTAP1_ERR_OTHER)
}

/// What the companion does with one client message.
pub enum CompanionAction {
    /// Answer the hello with this negotiated version and whether a key is
    /// connected (see `hello_ack`).
    Hello { version: u32 },
    /// Send this reply.
    Reply(ServerMessage),
    /// Relay this CTAP command to the physical key, then send `relay_reply`.
    Relay { id: String, command: u32, payload: Vec<u8> },
    /// Cancel the pending relay, if any, and send this reply.
    CancelAndReply(ServerMessage),
}

/// The hello acknowledgement: the negotiated version (at most 1), whether a
/// FIDO key is connected, and an empty device name.
pub fn hello_ack(version: u32, fido_available: bool) -> (r: ServerMessage)
    ensures
        r matches ServerMessage::HelloAck { version: v, fido_available: a, device_name: d } && v == version && a
            == fido_available && d@ == Seq::<char>::empty(),
{
    ServerMessage::HelloAck { version, fido_available, device_name: String::new() }
}

/// The companion's answer to a relay request whose payload decoded to
/// `payload`: a request whose CTAP2 command (the payload's first byte) is not
/// on the allow list, whatever its command number, is answered at once with
/// ERR_OTHER and an empty payload; every other request is relayed.
pub fn relay_gate(id: String, command: u32, payload: Vec<u8>) -> (r: CompanionAction)
    ensures
        !spec_allowed_ctap2_payload(payload@) ==> (r matches CompanionAction::Reply(
            ServerMessage::CtapResponse { id: rid, command: c, payload: p, error_code: e },
        ) && rid == id && c == command && p@ == Seq::<char>::empty() && e == CTAP1_ERR_OTHER),
        spec_allowed_ctap2_payload(payload@) ==> r == (CompanionAction::Relay {
            id,
            command,
            payload,
        }),
{
    if !is_allowed_ctap2_command(payload.as_slice()) {
        CompanionAction::Reply(
            ServerMessage::CtapResponse { id, command, payload: String::new(), error_code: CTAP1_ERR_OTHER },
        )
    } else {
        CompanionAction::Relay { id, command, payload }
    }
}

/// The reply to a cancel request: a CBOR response with KEEPALIVE_CANCEL.
pub fn cancel_reply(id: String) -> (r: ServerMessage)
    ensures
        r matches ServerMessage::CtapResponse { id: rid, command: c, payload: p, error_code: e } && rid == id && c
            == CTAPHID_CBOR as u32 && p@ == Seq::<char>::empty() && e == CTAP2_ERR_KEEPALIVE_CANCEL,
{
    ServerMessage::CtapResponse {
        id,
        command: CTAPHID_CBOR as u32,
        payload: String::new(),
        error_code: CTAP2_ERR_KEEPALIVE_CANCEL,
    }
}

/// The outcome owed for a relay request: failure when the payload is not
/// base64; a rejection (ERR_OTHER, empty payload) when the decoded CTAP2
/// command is not allowed; otherwise a relay of the decoded bytes.
pub open spec fn relay_outcome_matches(
    id: String,
    command: u32,
    payload: Seq<char>,
    r: Result<CompanionAction, CompanionError>,
) -> bool {
    match base64_decoded(payload) {
        None => r matches Err(CompanionError::InvalidBase64),
        Some(bytes) => if !spec_allowed_ctap2_payload(bytes) {
            r matches Ok(CompanionAction::Reply(ServerMessage::CtapResponse { id: rid, command: c, payload: p, error_code: e }))
                && rid == id && c == command && p@ == Seq::<char>::empty() && e == CTAP1_ERR_OTHER
        } else {
            r matches Ok(CompanionAction::Relay { id: rid, command: c, payload: p }) && rid == id && c == command
                && p@ == bytes
        },
    }
}

/// Decide what to do with one client message. It fails when a relay payload
/// is not valid base64 (which ends the session).
pub fn handle_client_message(msg: ClientMessage) -> (r: Result<CompanionAction, CompanionError>)
    ensures
        msg matches ClientMessage::Hello { version, .. } ==> (r matches Ok(CompanionAction::Hello { version: v })
            && v == (if version < 1 { version } else { 1 })),
        msg matches ClientMessage::CtapRelay { id, command, payload } ==> relay_outcome_matches(id, command, payload@, r),
        msg matches ClientMessage::CtapCancel { id } ==> (r matches Ok(CompanionAction::CancelAndReply(
            ServerMessage::CtapResponse { id: rid, command: c, payload: p, error_code: e },
        )) && rid == id && c == CTAPHID_CBOR as u32 && p@ == Seq::<char>::empty() && e == CTAP2_ERR_KEEPALIVE_CANCEL),
{
    match msg {
        ClientMessage::Hello { version, .. } => {
            let v = if version < 1 { version } else { 1 };
            Ok(CompanionAction::Hello { version: v })
        },
        ClientMessage::CtapRelay { id, command, payload } => {
            let bytes = match base64_decode(payload.as_str()) {
                Ok(b) => b,
                Err(_) => return Err(CompanionError::InvalidBase64),
            };
            Ok(relay_gate(id, command, bytes))
        },
        ClientMessage::CtapCancel { id } => Ok(CompanionAction::CancelAndReply(cancel_reply(id))),
    }
}

/// The reply that carries the outcome of a relay: the authenticator's
/// response in base64 with error code 0, or an empty payload with the
/// error code.
pub fn relay_reply(id: String, command: u32, result: CtapRelayResult) -> (r: ServerMessage)
    requires
        result matches CtapRelayResult::Response(d) ==> d@.len() / 3 * 4 + 4 <= usize::MAX,
    ensures
        result matches CtapRelayResult::Response(d) ==> (r matches ServerMessage::CtapResponse {
            id: rid,
            command: c,
            payload: p,
            error_code: e,
        } && rid == id && c == command && p@ == base64_encoded(d@) && e == 0),
        result matches CtapRelayResult::Error(code) ==> (r matches ServerMessage::CtapResponse {
            id: rid,
            command: c,
            payload: p,
            error_code: e,
        } && rid == id && c == command && p@ == Seq::<char>::empty() && e == code),
{
    match result {
        CtapRelayResult::Response(data) => {
            let payload = base64_encode(data.as_slice());
            ServerMessage::CtapResponse { id, command, payload, error_code: 0 }
        },
        CtapRelayResult::Error(code) => ServerMessage::CtapResponse {
            id,
            command,
            payload: String::new(),
            error_code: code,
        },
    }
}

} // verus!
