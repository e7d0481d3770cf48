//! Message types of the companion's WebSocket protocol (JSON, tagged by
//! `type`, with payloads in base64).
use vstd::prelude::*;

verus! {

/// A message from the web client to the companion.
#[derive(Debug)]
pub enum ClientMessage {
    /// `{"type":"hello"}`: opens the session.
    Hello { version: u32, origin: String },
    /// `{"type":"ctap_relay"}`: relay a CTAP command; `payload` is base64.
    CtapRelay { id: String, command: u32, payload: String },
    /// `{"type":"ctap_cancel"}`: cancel the pending relay.
    CtapCancel { id: String },
}

/// A message from the companion to the web client.
#[derive(Debug)]
pub enum ServerMessage {
    /// `{"type":"hello_ack"}`.
    HelloAck { version: u32, fido_available: bool, device_name: String },
    /// `{"type":"ctap_response"}`; `payload` is base64.
    CtapResponse { id: String, command: u32, payload: String, error_code: u32 },
    /// `{"type":"status"}`.
    Status { fido_available: bool, device_name: String },
}

} // verus!
