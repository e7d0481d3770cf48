use ctap_common::ctap_hid::{
    fragment, is_allowed_ctap2_command, CtapHidAssembler, CtapHidError, CtapHidMessage, BROADCAST_CID,
    CTAPHID_CANCEL, CTAPHID_CBOR, CTAPHID_ERROR, CTAPHID_INIT, CTAPHID_KEEPALIVE, ERR_INVALID_CMD,
    MAX_PAYLOAD_SIZE, STATUS_UPNEEDED,
};

#[test]
fn test_single_packet_cbor() {
    let msg = CtapHidMessage {
        cid: 0x00000001,
        cmd: CTAPHID_CBOR,
        payload: vec![0x04], // authenticatorGetInfo
    };

    let packets = fragment(&msg).unwrap();
    assert_eq!(packets.len(), 1);
    assert_eq!(packets[0][0..4], [0x00, 0x00, 0x00, 0x01]);
    assert_eq!(packets[0][4], 0x90); // CBOR | 0x80
    assert_eq!(packets[0][5], 0x00);
    assert_eq!(packets[0][6], 0x01);
    assert_eq!(packets[0][7], 0x04);

    let mut assembler = CtapHidAssembler::new();
    let result = assembler.feed(&packets[0]).unwrap();
    let reassembled = result.expect("Should be complete in one packet");
    assert_eq!(reassembled.cid, 0x00000001);
    assert_eq!(reassembled.cmd, CTAPHID_CBOR);
    assert_eq!(reassembled.payload, vec![0x04]);
}

#[test]
fn test_multi_packet_message() {
    let payload: Vec<u8> = (0..200).map(|i| (i % 256) as u8).collect();
    let msg = CtapHidMessage {
        cid: 0xDEADBEEF,
        cmd: CTAPHID_CBOR,
        payload: payload.clone(),
    };

    let packets = fragment(&msg).unwrap();
    // 57 in init + ceil((200-57)/59) = ceil(143/59) = 3 continuations = 4 total
    assert_eq!(packets.len(), 4);

    let mut assembler = CtapHidAssembler::new();
    assert!(assembler.feed(&packets[0]).unwrap().is_none());
    assert!(assembler.feed(&packets[1]).unwrap().is_none());
    assert!(assembler.feed(&packets[2]).unwrap().is_none());
    let result = assembler.feed(&packets[3]).unwrap().unwrap();
    assert_eq!(result.cid, 0xDEADBEEF);
    assert_eq!(result.cmd, CTAPHID_CBOR);
    assert_eq!(result.payload, payload);
}

#[test]
fn test_init_flow() {
    let nonce: [u8; 8] = [0x01, 0x02, 0x03, 0x04, 0x05, 0x06, 0x07, 0x08];
    let init_req = CtapHidMessage {
        cid: BROADCAST_CID,
        cmd: CTAPHID_INIT,
        payload: nonce.to_vec(),
    };

    let packets = fragment(&init_req).unwrap();
    assert_eq!(packets.len(), 1);

    let mut assembler = CtapHidAssembler::new();
    let req = assembler.feed(&packets[0]).unwrap().unwrap();
    assert_eq!(req.cid, BROADCAST_CID);
    assert_eq!(req.cmd, CTAPHID_INIT);
    assert_eq!(req.payload.len(), 8);

    let resp = CtapHidMessage::init_response(&nonce, 0x00000001, 0x04);
    assert_eq!(resp.payload.len(), 17);
    assert_eq!(&resp.payload[0..8], &nonce);
    assert_eq!(&resp.payload[8..12], &[0, 0, 0, 1]);
    assert_eq!(resp.payload[12], 2);
    assert_eq!(resp.payload[16], 0x04);
}

#[test]
fn test_sequence_error() {
    let payload = vec![0u8; 200];
    let msg = CtapHidMessage {
        cid: 0x00000001,
        cmd: CTAPHID_CBOR,
        payload,
    };

    let mut packets = fragment(&msg).unwrap();
    packets.swap(2, 3);

    let mut assembler = CtapHidAssembler::new();
    assert!(assembler.feed(&packets[0]).unwrap().is_none());
    assert!(assembler.feed(&packets[1]).unwrap().is_none());
    match assembler.feed(&packets[2]) {
        Err(CtapHidError::InvalidSequence { expected, got }) => {
            assert!(expected != got, "seq mismatch detected: expected {expected}, got {got}");
        }
        other => panic!("Expected InvalidSequence error, got {:?}", other),
    }
}

#[test]
fn test_max_payload() {
    let payload = vec![0xAA; MAX_PAYLOAD_SIZE];
    let msg = CtapHidMessage {
        cid: 0x00000001,
        cmd: CTAPHID_CBOR,
        payload: payload.clone(),
    };
    let packets = fragment(&msg).unwrap();

    let mut assembler = CtapHidAssembler::new();
    let mut result = None;
    for pkt in &packets {
        result = assembler.feed(pkt).unwrap();
    }
    let r = result.unwrap();
    assert_eq!(r.payload.len(), MAX_PAYLOAD_SIZE);
    assert_eq!(r.payload, payload);
}

#[test]
fn test_payload_too_large() {
    let msg = CtapHidMessage {
        cid: 0x00000001,
        cmd: CTAPHID_CBOR,
        payload: vec![0; MAX_PAYLOAD_SIZE + 1],
    };
    assert!(matches!(
        fragment(&msg),
        Err(CtapHidError::PayloadTooLarge { .. })
    ));
}

#[test]
fn test_empty_payload() {
    let msg = CtapHidMessage {
        cid: 0x00000001,
        cmd: CTAPHID_CANCEL,
        payload: vec![],
    };

    let packets = fragment(&msg).unwrap();
    assert_eq!(packets.len(), 1);

    let mut assembler = CtapHidAssembler::new();
    let result = assembler.feed(&packets[0]).unwrap().unwrap();
    assert_eq!(result.cmd, CTAPHID_CANCEL);
    assert!(result.payload.is_empty());
}

#[test]
fn test_keepalive_construction() {
    let ka = CtapHidMessage::keepalive(0x00000001, STATUS_UPNEEDED);
    assert_eq!(ka.cid, 0x00000001);
    assert_eq!(ka.cmd, CTAPHID_KEEPALIVE);
    assert_eq!(ka.payload, vec![STATUS_UPNEEDED]);
}

#[test]
fn test_error_construction() {
    let err = CtapHidMessage::error(BROADCAST_CID, ERR_INVALID_CMD);
    assert_eq!(err.cid, BROADCAST_CID);
    assert_eq!(err.cmd, CTAPHID_ERROR);
    assert_eq!(err.payload, vec![ERR_INVALID_CMD]);
}

#[test]
fn test_allowed_ctap2_commands() {
    assert!(is_allowed_ctap2_command(&[0x01])); // MakeCredential
    assert!(is_allowed_ctap2_command(&[0x02])); // GetAssertion
    assert!(is_allowed_ctap2_command(&[0x04])); // GetInfo
    assert!(is_allowed_ctap2_command(&[0x06])); // ClientPIN
    assert!(is_allowed_ctap2_command(&[0x08])); // GetNextAssertion
    assert!(is_allowed_ctap2_command(&[0x0B])); // Selection
    assert!(!is_allowed_ctap2_command(&[0x07])); // Reset - BLOCKED
    assert!(!is_allowed_ctap2_command(&[0x09])); // BioEnrollment - BLOCKED
    assert!(!is_allowed_ctap2_command(&[0x0A])); // CredentialManagement - BLOCKED
    assert!(!is_allowed_ctap2_command(&[0x0D])); // Config - BLOCKED
    assert!(!is_allowed_ctap2_command(&[]));
}

#[test]
fn test_cid_mismatch() {
    let payload = vec![0u8; 200];
    let msg = CtapHidMessage {
        cid: 0x00000001,
        cmd: CTAPHID_CBOR,
        payload,
    };
    let packets = fragment(&msg).unwrap();

    let mut assembler = CtapHidAssembler::new();
    assert!(assembler.feed(&packets[0]).unwrap().is_none());

    // Corrupt CID in continuation packet
    let mut bad_pkt = packets[1];
    bad_pkt[0] = 0xFF;
    match assembler.feed(&bad_pkt) {
        Err(CtapHidError::CidMismatch { .. }) => {}
        other => panic!("Expected CidMismatch, got {:?}", other),
    }
}

#[test]
fn test_init_resets_assembler() {
    // Start assembling a multi-packet message
    let payload = vec![0u8; 200];
    let msg1 = CtapHidMessage {
        cid: 0x00000001,
        cmd: CTAPHID_CBOR,
        payload,
    };
    let packets1 = fragment(&msg1).unwrap();

    let mut assembler = CtapHidAssembler::new();
    assert!(assembler.feed(&packets1[0]).unwrap().is_none());
    assert!(assembler.is_busy());

    // A new init packet (different message) resets and starts fresh
    let msg2 = CtapHidMessage {
        cid: 0x00000002,
        cmd: CTAPHID_CBOR,
        payload: vec![0x04],
    };
    let packets2 = fragment(&msg2).unwrap();
    let result = assembler.feed(&packets2[0]).unwrap().unwrap();
    assert_eq!(result.cid, 0x00000002);
    assert_eq!(result.payload, vec![0x04]);
}
