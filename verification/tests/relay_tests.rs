use ctap_common::ctap_hid::{
    fragment, CtapHidAssembler, CtapHidMessage, BROADCAST_CID, CTAPHID_CANCEL, CTAPHID_CBOR, CTAPHID_ERROR,
    CTAPHID_INIT, CTAPHID_KEEPALIVE, CTAPHID_PING, MAX_PAYLOAD_SIZE,
};
use ctap_common::ctap_local::{relay_failure_frame, relay_response_frame};
use ctap_common::fido_relay::{
    cancel_message, cbor_request, channel_request, hid_write_buffer, hid_write_buffers, init_request,
    is_fido_device, parse_init_response, read_step, relay_decision, ChannelError, CtapRelayResult, ReadStep,
    RelayDecision, RelayEvent,
};

#[test]
fn fido_devices_are_recognised_by_usage() {
    assert!(is_fido_device(0xF1D0, 0x01));
    assert!(!is_fido_device(0xF1D0, 0x02));
    assert!(!is_fido_device(0x0001, 0x01));
}

#[test]
fn channel_request_carries_its_nonce() {
    let req = channel_request();
    assert_eq!(req.message.cid, BROADCAST_CID);
    assert_eq!(req.message.cmd, CTAPHID_INIT);
    assert_eq!(req.message.payload, req.nonce.to_vec());
    let m = init_request(&[1, 2, 3, 4, 5, 6, 7, 8]);
    assert_eq!(m.payload, vec![1, 2, 3, 4, 5, 6, 7, 8]);
}

#[test]
fn init_response_is_checked() {
    let nonce = [1, 2, 3, 4, 5, 6, 7, 8];
    let good = CtapHidMessage::init_response(&nonce, 0xA1B2C3D4, 4);
    assert_eq!(parse_init_response(Some(good.clone()), &nonce).unwrap(), 0xA1B2C3D4);
    assert!(matches!(parse_init_response(None, &nonce), Err(ChannelError::Timeout)));
    let wrong_nonce = [1, 2, 3, 4, 5, 6, 7, 9];
    assert!(matches!(parse_init_response(Some(good.clone()), &wrong_nonce), Err(ChannelError::NonceMismatch)));
    let mut short = good.clone();
    short.payload.truncate(16);
    assert!(matches!(parse_init_response(Some(short), &nonce), Err(ChannelError::InvalidResponse)));
    let mut wrong_cmd = good;
    wrong_cmd.cmd = CTAPHID_PING;
    assert!(matches!(parse_init_response(Some(wrong_cmd), &nonce), Err(ChannelError::InvalidResponse)));
}

#[test]
fn write_buffers_prefix_report_id() {
    let msg = CtapHidMessage { cid: 7, cmd: CTAPHID_CBOR, payload: vec![9; 100] };
    let packets = fragment(&msg).unwrap();
    let bufs = hid_write_buffers(&msg).unwrap();
    assert_eq!(bufs.len(), packets.len());
    for (b, p) in bufs.iter().zip(packets.iter()) {
        assert_eq!(b[0], 0);
        assert_eq!(&b[1..65], &p[..]);
    }
    assert_eq!(hid_write_buffer(&packets[0])[1..5], [0, 0, 0, 7]);
    let big = CtapHidMessage { cid: 7, cmd: CTAPHID_CBOR, payload: vec![0; MAX_PAYLOAD_SIZE + 1] };
    assert!(hid_write_buffers(&big).is_err());
}

#[test]
fn read_step_filters_channels_and_errors() {
    let mut assembler = CtapHidAssembler::new();
    let buf = [0u8; 64];
    assert!(matches!(read_step(&mut assembler, 5, &buf, 0), ReadStep::TimedOut));
    assert!(matches!(read_step(&mut assembler, 5, &buf, 10), ReadStep::Continue));

    let other = fragment(&CtapHidMessage { cid: 6, cmd: CTAPHID_CBOR, payload: vec![1] }).unwrap();
    assert!(matches!(read_step(&mut assembler, 5, &other[0], 64), ReadStep::Continue));

    let mine = fragment(&CtapHidMessage { cid: 5, cmd: CTAPHID_CBOR, payload: vec![1, 2] }).unwrap();
    match read_step(&mut assembler, 5, &mine[0], 64) {
        ReadStep::Message(m) => assert_eq!(m.payload, vec![1, 2]),
        _ => panic!("expected a message"),
    }
    // Any channel is accepted when reading on the broadcast channel.
    match read_step(&mut assembler, BROADCAST_CID, &other[0], 64) {
        ReadStep::Message(m) => assert_eq!(m.cid, 6),
        _ => panic!("expected a message"),
    }
    // A framing error is dropped.
    let long = fragment(&CtapHidMessage { cid: 5, cmd: CTAPHID_CBOR, payload: vec![0; 100] }).unwrap();
    assert!(matches!(read_step(&mut assembler, 5, &long[1], 64), ReadStep::Continue));
    assert!(!assembler.is_busy());
}

#[test]
fn relay_decisions() {
    match relay_decision(9, RelayEvent::CancelRequested) {
        RelayDecision::CancelThenFinish(m, CtapRelayResult::Error(0x2D)) => {
            assert_eq!(m.cid, 9);
            assert_eq!(m.cmd, CTAPHID_CANCEL);
            assert!(m.payload.is_empty());
        }
        _ => panic!("expected cancel"),
    }
    assert!(matches!(relay_decision(9, RelayEvent::DeadlinePassed), RelayDecision::Finish(CtapRelayResult::Error(0x2D))));
    assert!(matches!(relay_decision(9, RelayEvent::ReadFailed), RelayDecision::Finish(CtapRelayResult::Error(0x01))));
    assert!(matches!(relay_decision(9, RelayEvent::NothingYet), RelayDecision::Wait));
    let ka = CtapHidMessage::keepalive(9, 2);
    assert!(matches!(relay_decision(9, RelayEvent::Received(ka)), RelayDecision::Wait));
    let resp = CtapHidMessage { cid: 9, cmd: CTAPHID_CBOR, payload: vec![0, 1, 2] };
    match relay_decision(9, RelayEvent::Received(resp)) {
        RelayDecision::Finish(CtapRelayResult::Response(p)) => assert_eq!(p, vec![0, 1, 2]),
        _ => panic!("expected response"),
    }
    let err = CtapHidMessage::error(9, 0x27);
    assert!(matches!(relay_decision(9, RelayEvent::Received(err)), RelayDecision::Finish(CtapRelayResult::Error(0x27))));
    let empty_err = CtapHidMessage { cid: 9, cmd: CTAPHID_ERROR, payload: vec![] };
    assert!(matches!(relay_decision(9, RelayEvent::Received(empty_err)), RelayDecision::Finish(CtapRelayResult::Error(0x7F))));
    let other = CtapHidMessage { cid: 9, cmd: CTAPHID_PING, payload: vec![] };
    assert!(matches!(relay_decision(9, RelayEvent::Received(other)), RelayDecision::Wait));
    let _ = CTAPHID_KEEPALIVE;
}

#[test]
fn relay_requests() {
    let m = cbor_request(3, &[4, 5]);
    assert_eq!((m.cid, m.cmd, m.payload), (3, CTAPHID_CBOR, vec![4, 5]));
    let c = cancel_message(3);
    assert_eq!((c.cid, c.cmd, c.payload.len()), (3, CTAPHID_CANCEL, 0));
}

#[test]
fn relay_frames() {
    let f = relay_response_frame(CtapRelayResult::Response(vec![0, 0xA1]));
    assert_eq!((f.command, f.payload, f.is_response, f.error_code), (0x10, vec![0, 0xA1], true, 0));
    let f = relay_response_frame(CtapRelayResult::Error(0x2E));
    assert_eq!((f.command, f.payload.len(), f.is_response, f.error_code), (0x10, 0, true, 0x2E));
    let f = relay_failure_frame();
    assert_eq!((f.command, f.payload.len(), f.is_response, f.error_code), (0x10, 0, true, 0x01));
}
