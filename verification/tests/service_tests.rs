use ctap_common::ctap_frame::CtapFrame;
use ctap_common::ctap_hid::{
    fragment, CtapHidAssembler, CtapHidError, CtapHidMessage, BROADCAST_CID, CTAPHID_CANCEL, CTAPHID_CBOR,
    CTAPHID_ERROR, CTAPHID_INIT, CTAPHID_KEEPALIVE, CTAPHID_MSG, CTAPHID_PING, ERR_CHANNEL_BUSY,
    ERR_INVALID_CMD, ERR_INVALID_LEN, ERR_INVALID_SEQ, ERR_MSG_TIMEOUT, MAX_PAYLOAD_SIZE, STATUS_UPNEEDED,
};
use ctap_common::ctap_service::{CtapService, CtapServiceConfig, ServiceAction};
use ctap_common::ctap_local::relay_response_frame;
use ctap_common::fido_relay::CtapRelayResult;

fn service() -> CtapService {
    CtapService::new(CtapServiceConfig { client_timeout_ms: 1000, keepalive_interval_ms: 100 })
}

/// Reassemble the device writes among `acts` into messages.
fn written_messages(acts: &[ServiceAction]) -> Vec<CtapHidMessage> {
    let mut assembler = CtapHidAssembler::new();
    let mut out = Vec::new();
    for a in acts {
        if let ServiceAction::WriteReport(r) = a {
            if let Some(m) = assembler.feed(r).unwrap() {
                out.push(m);
            }
        }
    }
    out
}

fn peer_frames(acts: &[ServiceAction]) -> Vec<&CtapFrame> {
    acts.iter()
        .filter_map(|a| match a {
            ServiceAction::SendToPeer(f) => Some(f),
            _ => None,
        })
        .collect()
}

fn send(svc: &mut CtapService, msg: &CtapHidMessage, now: u64) -> Vec<ServiceAction> {
    let mut all = Vec::new();
    for r in fragment(msg).unwrap() {
        all.extend(svc.handle_uhid_report(&r, now));
    }
    all
}

fn cbor(cid: u32, payload: Vec<u8>) -> CtapHidMessage {
    CtapHidMessage { cid, cmd: CTAPHID_CBOR, payload }
}

#[test]
fn service_config_defaults() {
    let c = CtapServiceConfig::default();
    assert_eq!(c.client_timeout_ms, 25000);
    assert_eq!(c.keepalive_interval_ms, 100);
}

#[test]
fn service_allocates_increasing_channels() {
    let mut svc = service();
    let nonce = vec![1, 2, 3, 4, 5, 6, 7, 8];
    let req = CtapHidMessage { cid: BROADCAST_CID, cmd: CTAPHID_INIT, payload: nonce.clone() };
    let out = written_messages(&send(&mut svc, &req, 0));
    assert_eq!(out.len(), 1);
    assert_eq!(out[0].cid, BROADCAST_CID);
    assert_eq!(out[0].cmd, CTAPHID_INIT);
    assert_eq!(out[0].payload, vec![1, 2, 3, 4, 5, 6, 7, 8, 0, 0, 0, 1, 2, 0, 0, 0, 4]);
    let out = written_messages(&send(&mut svc, &req, 0));
    assert_eq!(out[0].payload[8..12], [0, 0, 0, 2]);
}

#[test]
fn service_rejects_short_init_nonce() {
    let mut svc = service();
    let req = CtapHidMessage { cid: BROADCAST_CID, cmd: CTAPHID_INIT, payload: vec![1, 2, 3] };
    let out = written_messages(&send(&mut svc, &req, 0));
    assert_eq!(out.len(), 1);
    assert_eq!(out[0].cmd, CTAPHID_ERROR);
    assert_eq!(out[0].payload, vec![ERR_INVALID_LEN]);
}

#[test]
fn service_echoes_ping() {
    let mut svc = service();
    let payload: Vec<u8> = (0..100).collect();
    let req = CtapHidMessage { cid: 3, cmd: CTAPHID_PING, payload: payload.clone() };
    let acts = send(&mut svc, &req, 0);
    assert!(peer_frames(&acts).is_empty());
    let out = written_messages(&acts);
    assert_eq!(out.len(), 1);
    assert_eq!(out[0].cid, 3);
    assert_eq!(out[0].cmd, CTAPHID_PING);
    assert_eq!(out[0].payload, payload);
}

#[test]
fn service_forwards_allowed_cbor() {
    let mut svc = service();
    let acts = send(&mut svc, &cbor(5, vec![0x04]), 10);
    let frames = peer_frames(&acts);
    assert_eq!(frames.len(), 1);
    assert_eq!(frames[0].command, CTAPHID_CBOR as u32);
    assert_eq!(frames[0].payload, vec![0x04]);
    assert!(!frames[0].is_response);
    assert_eq!(frames[0].error_code, 0);
    assert_eq!(svc.active_cid(), Some(5));
}

#[test]
fn service_blocks_authenticator_reset() {
    let mut svc = service();
    let acts = send(&mut svc, &cbor(5, vec![0x07]), 0);
    assert!(peer_frames(&acts).is_empty());
    let out = written_messages(&acts);
    assert_eq!(out[0].cid, 5);
    assert_eq!(out[0].cmd, CTAPHID_ERROR);
    assert_eq!(out[0].payload, vec![ERR_INVALID_CMD]);
    assert_eq!(svc.active_cid(), None);
}

#[test]
fn service_answers_busy_while_waiting() {
    let mut svc = service();
    send(&mut svc, &cbor(5, vec![0x02, 0xA0]), 0);
    let acts = send(&mut svc, &cbor(6, vec![0x01]), 0);
    assert!(peer_frames(&acts).is_empty());
    let out = written_messages(&acts);
    assert_eq!(out[0].cid, 6);
    assert_eq!(out[0].payload, vec![ERR_CHANNEL_BUSY]);
    assert_eq!(svc.active_cid(), Some(5));
}

#[test]
fn service_keepalive_then_timeout() {
    let mut svc = service();
    assert!(svc.handle_keepalive_tick(0).is_empty());
    send(&mut svc, &cbor(5, vec![0x01]), 100);
    let out = written_messages(&svc.handle_keepalive_tick(600));
    assert_eq!(out.len(), 1);
    assert_eq!(out[0].cid, 5);
    assert_eq!(out[0].cmd, CTAPHID_KEEPALIVE);
    assert_eq!(out[0].payload, vec![STATUS_UPNEEDED]);
    let out = written_messages(&svc.handle_keepalive_tick(1100));
    assert_eq!(out[0].cmd, CTAPHID_ERROR);
    assert_eq!(out[0].payload, vec![ERR_MSG_TIMEOUT]);
    assert_eq!(svc.active_cid(), None);
    assert!(svc.handle_keepalive_tick(1200).is_empty());
}

#[test]
fn service_relays_client_response() {
    let mut svc = service();
    send(&mut svc, &cbor(5, vec![0x04]), 0);
    let payload: Vec<u8> = (0..150).map(|i| i as u8).collect();
    let frame = CtapFrame { command: CTAPHID_CBOR as u32, payload: payload.clone(), is_response: true, error_code: 0 };
    let out = written_messages(&svc.handle_client_response(frame).unwrap());
    assert_eq!(out.len(), 1);
    assert_eq!(out[0].cid, 5);
    assert_eq!(out[0].cmd, CTAPHID_CBOR);
    assert_eq!(out[0].payload, payload);
    assert_eq!(svc.active_cid(), None);
}

#[test]
fn service_relays_client_error_as_status_byte() {
    let mut svc = service();
    send(&mut svc, &cbor(5, vec![0x04]), 0);
    let frame = CtapFrame { command: CTAPHID_CBOR as u32, payload: vec![], is_response: true, error_code: 0x12E };
    let out = written_messages(&svc.handle_client_response(frame).unwrap());
    assert_eq!(out[0].cmd, CTAPHID_CBOR);
    assert_eq!(out[0].payload, vec![0x2E]);
}

#[test]
fn service_fails_on_oversized_client_response() {
    let mut svc = service();
    send(&mut svc, &cbor(5, vec![0x04]), 0);
    let frame = CtapFrame {
        command: CTAPHID_CBOR as u32,
        payload: vec![0; MAX_PAYLOAD_SIZE + 1],
        is_response: true,
        error_code: 0,
    };
    assert!(matches!(svc.handle_client_response(frame), Err(CtapHidError::PayloadTooLarge { .. })));
    assert_eq!(svc.active_cid(), Some(5));
}

#[test]
fn service_ignores_response_without_transaction() {
    let mut svc = service();
    let frame = CtapFrame { command: CTAPHID_CBOR as u32, payload: vec![1], is_response: true, error_code: 0 };
    assert!(svc.handle_client_response(frame).unwrap().is_empty());
}

#[test]
fn service_forwards_cancel_of_active_channel_only() {
    let mut svc = service();
    send(&mut svc, &cbor(5, vec![0x02]), 0);
    let other = CtapHidMessage { cid: 6, cmd: CTAPHID_CANCEL, payload: vec![] };
    assert!(send(&mut svc, &other, 0).is_empty());
    let cancel = CtapHidMessage { cid: 5, cmd: CTAPHID_CANCEL, payload: vec![] };
    let acts = send(&mut svc, &cancel, 0);
    let frames = peer_frames(&acts);
    assert_eq!(frames.len(), 1);
    assert_eq!(frames[0].command, CTAPHID_CANCEL as u32);
    assert!(frames[0].payload.is_empty());
    assert_eq!(svc.active_cid(), None);
}

#[test]
fn service_rejects_u2f_and_unknown_commands() {
    let mut svc = service();
    for cmd in [CTAPHID_MSG, 0x08, 0x20] {
        let req = CtapHidMessage { cid: 9, cmd, payload: vec![1] };
        let out = written_messages(&send(&mut svc, &req, 0));
        assert_eq!(out[0].cmd, CTAPHID_ERROR);
        assert_eq!(out[0].payload, vec![ERR_INVALID_CMD]);
    }
}

#[test]
fn service_answers_framing_errors_on_report_channel() {
    let mut svc = service();
    let packets = fragment(&cbor(0x0A0B0C0D, vec![0; 100])).unwrap();
    let out = written_messages(&svc.handle_uhid_report(&packets[1], 0));
    assert_eq!(out.len(), 1);
    assert_eq!(out[0].cid, 0x0A0B0C0D);
    assert_eq!(out[0].payload, vec![ERR_INVALID_SEQ]);
}

#[test]
fn relay_outcome_reaches_browser_end_to_end() {
    let mut svc = service();
    send(&mut svc, &cbor(8, vec![0x02]), 0);
    let acts = svc.handle_client_response(relay_response_frame(CtapRelayResult::Response(vec![0x00, 0xA2]))).unwrap();
    assert!(peer_frames(&acts).is_empty());
    let out = written_messages(&acts);
    assert_eq!((out[0].cid, out[0].cmd, out[0].payload.clone()), (8, CTAPHID_CBOR, vec![0x00, 0xA2]));

    send(&mut svc, &cbor(9, vec![0x02]), 0);
    let acts = svc.handle_client_response(relay_response_frame(CtapRelayResult::Error(0x2D))).unwrap();
    let out = written_messages(&acts);
    assert_eq!((out[0].cid, out[0].cmd, out[0].payload.clone()), (9, CTAPHID_CBOR, vec![0x2D]));
}

#[test]
fn stalled_message_times_out_after_packet_timeout() {
    let mut svc = service();
    let packets = fragment(&cbor(0x0102, vec![0x01; 200])).unwrap();
    assert!(svc.handle_uhid_report(&packets[0], 1000).is_empty());
    assert!(svc.needs_tick());
    assert!(svc.handle_keepalive_tick(1499).is_empty());
    assert!(svc.handle_uhid_report(&packets[1], 1400).is_empty());
    // 500 ms after the last report the message is abandoned.
    assert!(svc.handle_keepalive_tick(1899).is_empty());
    let acts = svc.handle_keepalive_tick(1900);
    assert!(peer_frames(&acts).is_empty());
    let out = written_messages(&acts);
    assert_eq!(out.len(), 1);
    assert_eq!(out[0].cid, 0x0102);
    assert_eq!(out[0].cmd, CTAPHID_ERROR);
    assert_eq!(out[0].payload, vec![ERR_MSG_TIMEOUT]);
    assert!(!svc.needs_tick());
    // The rest of the abandoned message is a framing error.
    let out = written_messages(&svc.handle_uhid_report(&packets[2], 1950));
    assert_eq!(out[0].payload, vec![ERR_INVALID_SEQ]);
}

#[test]
fn packet_timeout_does_not_end_waiting_transaction() {
    let mut svc = service();
    send(&mut svc, &cbor(5, vec![0x01]), 0);
    let packets = fragment(&cbor(6, vec![0x01; 100])).unwrap();
    svc.handle_uhid_report(&packets[0], 100);
    let out = written_messages(&svc.handle_keepalive_tick(600));
    assert_eq!(out.len(), 2);
    assert_eq!((out[0].cid, out[0].payload.clone()), (6, vec![ERR_MSG_TIMEOUT]));
    assert_eq!((out[1].cid, out[1].cmd), (5, CTAPHID_KEEPALIVE));
    assert_eq!(svc.active_cid(), Some(5));
}

#[test]
fn late_continuation_times_out_the_stalled_message() {
    let mut svc = service();
    let packets = fragment(&cbor(0x0304, vec![0x01; 200])).unwrap();
    assert!(svc.handle_uhid_report(&packets[0], 2000).is_empty());
    // Within 500 ms the continuation is joined to the message.
    assert!(svc.handle_uhid_report(&packets[1], 2499).is_empty());
    // The next one comes 500 ms after the last: the message is abandoned
    // first, and the late continuation starts nothing.
    let out = written_messages(&svc.handle_uhid_report(&packets[2], 2999));
    assert_eq!(out.len(), 2);
    assert_eq!((out[0].cid, out[0].cmd, out[0].payload.clone()), (0x0304, CTAPHID_ERROR, vec![ERR_MSG_TIMEOUT]));
    assert_eq!((out[1].cid, out[1].payload.clone()), (0x0304, vec![ERR_INVALID_SEQ]));
    assert!(!svc.needs_tick());
}
