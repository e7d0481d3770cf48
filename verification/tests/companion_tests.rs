use ctap_common::fido_relay::CtapRelayResult;
use ctap_common::protocol::{ClientMessage, ServerMessage};
use ctap_common::ws_server::{
    handle_client_message, hello_ack, is_origin_allowed, relay_reply, CompanionAction, CompanionError, WsServer,
};

#[test]
fn server_accepts_default_and_added_origins() {
    let s = WsServer::new(21118, vec!["https://example.org".to_string()]);
    assert_eq!(s.port(), 21118);
    let o = s.allowed_origins();
    assert_eq!(o.len(), 6);
    assert_eq!(o[0], "https://web.rustdesk.com");
    assert_eq!(o[5], "https://example.org");
    assert!(is_origin_allowed(None, o));
    assert!(is_origin_allowed(Some("https://web.rustdesk.com"), o));
    assert!(is_origin_allowed(Some("http://localhost:8080"), o));
    assert!(is_origin_allowed(Some("https://example.org"), o));
    assert!(!is_origin_allowed(Some("https://evil.example"), o));
    assert!(!is_origin_allowed(Some(""), o));
    assert!(!is_origin_allowed(Some("https://web.rustdesk.co"), o));
    assert!(!is_origin_allowed(Some("https://web.rustdesk.com.evil.com"), o));
    assert!(!is_origin_allowed(Some("http://localhost.evil.com"), o));
    assert!(!is_origin_allowed(Some("http://localhost:"), o));
    assert!(!is_origin_allowed(Some("http://localhost:80a"), o));
    assert!(is_origin_allowed(Some("https://example.org:443"), o));
    assert!(is_origin_allowed(Some("http://127.0.0.1:21118"), o));
}

#[test]
fn hello_negotiates_version() {
    match handle_client_message(ClientMessage::Hello { version: 3, origin: String::new() }) {
        Ok(CompanionAction::Hello { version }) => assert_eq!(version, 1),
        _ => panic!("expected hello"),
    }
    match handle_client_message(ClientMessage::Hello { version: 0, origin: String::new() }) {
        Ok(CompanionAction::Hello { version }) => assert_eq!(version, 0),
        _ => panic!("expected hello"),
    }
    match hello_ack(1, true) {
        ServerMessage::HelloAck { version, fido_available, device_name } => {
            assert_eq!(version, 1);
            assert!(fido_available);
            assert!(device_name.is_empty());
        }
        _ => panic!("expected hello_ack"),
    }
}

#[test]
fn relay_request_decodes_base64_payload() {
    let msg = ClientMessage::CtapRelay { id: "a".to_string(), command: 0x10, payload: "BA==".to_string() };
    match handle_client_message(msg) {
        Ok(CompanionAction::Relay { id, command, payload }) => {
            assert_eq!(id, "a");
            assert_eq!(command, 0x10);
            assert_eq!(payload, vec![0x04]);
        }
        _ => panic!("expected relay"),
    }
}

#[test]
fn relay_request_blocks_reset() {
    let msg = ClientMessage::CtapRelay { id: "b".to_string(), command: 0x10, payload: "Bw==".to_string() };
    match handle_client_message(msg) {
        Ok(CompanionAction::Reply(ServerMessage::CtapResponse { id, command, payload, error_code })) => {
            assert_eq!(id, "b");
            assert_eq!(command, 0x10);
            assert!(payload.is_empty());
            assert_eq!(error_code, 0x01);
        }
        _ => panic!("expected rejection"),
    }
    // The allow list applies whatever the command number.
    let msg = ClientMessage::CtapRelay { id: "c".to_string(), command: 0x03, payload: "Bw==".to_string() };
    match handle_client_message(msg) {
        Ok(CompanionAction::Reply(ServerMessage::CtapResponse { id, command, payload, error_code })) => {
            assert_eq!(id, "c");
            assert_eq!(command, 0x03);
            assert!(payload.is_empty());
            assert_eq!(error_code, 0x01);
        }
        _ => panic!("expected rejection"),
    }
    let msg = ClientMessage::CtapRelay { id: "h".to_string(), command: 0x03, payload: "AQ==".to_string() };
    assert!(matches!(handle_client_message(msg), Ok(CompanionAction::Relay { .. })));
}

#[test]
fn relay_request_with_bad_base64_fails() {
    let msg = ClientMessage::CtapRelay { id: "d".to_string(), command: 0x10, payload: "not base64!".to_string() };
    assert!(matches!(handle_client_message(msg), Err(CompanionError::InvalidBase64)));
}

#[test]
fn cancel_is_answered_with_keepalive_cancel() {
    match handle_client_message(ClientMessage::CtapCancel { id: "e".to_string() }) {
        Ok(CompanionAction::CancelAndReply(ServerMessage::CtapResponse { id, command, payload, error_code })) => {
            assert_eq!(id, "e");
            assert_eq!(command, 0x10);
            assert!(payload.is_empty());
            assert_eq!(error_code, 0x2D);
        }
        _ => panic!("expected cancel reply"),
    }
}

#[test]
fn relay_reply_encodes_response() {
    match relay_reply("f".to_string(), 0x10, CtapRelayResult::Response(vec![0x04])) {
        ServerMessage::CtapResponse { id, command, payload, error_code } => {
            assert_eq!(id, "f");
            assert_eq!(command, 0x10);
            assert_eq!(payload, "BA==");
            assert_eq!(error_code, 0);
        }
        _ => panic!("expected response"),
    }
    match relay_reply("g".to_string(), 0x10, CtapRelayResult::Error(0x2E)) {
        ServerMessage::CtapResponse { payload, error_code, .. } => {
            assert!(payload.is_empty());
            assert_eq!(error_code, 0x2E);
        }
        _ => panic!("expected response"),
    }
}
