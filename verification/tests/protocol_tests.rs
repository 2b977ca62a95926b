use noise_tunnel_rs::server::{available_capacity, is_at_capacity};
use noise_tunnel_rs::protocol::{
    hash_handshake_state, MessageType, ReplayFilter, WireFrame, MAX_FRAME_SIZE, PROTOCOL_NAME,
};

#[test]
fn test_wireframe_helpers_and_display() {
    let data_frame = WireFrame::data(1, vec![1, 2, 3]);
    assert!(data_frame.is_data());
    assert!(!data_frame.is_handshake());
    assert!(!data_frame.is_heartbeat());
    assert!(!data_frame.is_close());
    assert_eq!(data_frame.payload_len(), 3);
    assert!(!data_frame.is_empty());
    assert_eq!(MessageType::DataPayload.to_string(), "DataPayload");

    let hs_frame = WireFrame::handshake_init(0, vec![]);
    assert!(hs_frame.is_handshake());
    assert!(hs_frame.is_empty());
    assert_eq!(MessageType::HandshakeInit.to_string(), "HandshakeInit");

    let hs_resp_frame = WireFrame::handshake_resp(0, vec![10, 20]);
    assert!(hs_resp_frame.is_handshake());
    assert_eq!(MessageType::HandshakeResp.to_string(), "HandshakeResp");

    let hb_frame = WireFrame::heartbeat(2, vec![]);
    assert!(hb_frame.is_heartbeat());
    assert!(hb_frame.is_empty());
    assert_eq!(MessageType::Heartbeat.to_string(), "Heartbeat");

    let close_frame = WireFrame::close(3);
    assert!(close_frame.is_close());
    assert!(close_frame.is_empty());
    assert_eq!(MessageType::Close.to_string(), "Close");

    let header = data_frame.header_bytes();
    assert_eq!(header[0], MessageType::DataPayload.as_u8());
    assert_eq!(&header[1..9], &1u64.to_be_bytes());

    let summary = data_frame.summary();
    assert!(summary.contains("DataPayload"));
    assert!(summary.contains("nonce=1"));
    assert!(summary.contains("payload_len=3B"));
}

#[test]
fn test_replay_filter_blocks_duplicated_nonce() {
    let mut filter = ReplayFilter::new();
    assert!(filter.validate_and_record(1).is_ok());
    assert!(filter.validate_and_record(2).is_ok());

    let replay_result = filter.validate_and_record(1);
    assert!(
        replay_result.is_err(),
        "Replay angrep må detekteres og avvises!"
    );
}

#[test]
fn test_replay_filter_sliding_window_out_of_order() {
    let mut filter = ReplayFilter::new();
    assert!(filter.validate_and_record(10).is_ok());
    assert!(filter.validate_and_record(15).is_ok());
    assert!(filter.validate_and_record(12).is_ok());
    assert!(filter.validate_and_record(12).is_err());
    assert!(filter.validate_and_record(15).is_err());
}

#[test]
fn test_replay_filter_old_packet_outside_window() {
    let mut filter = ReplayFilter::with_window_size(64);
    assert!(filter.validate_and_record(100).is_ok());
    assert_eq!(filter.highest_seen(), 100);
    assert!(filter.validate_and_record(200).is_ok());
    assert_eq!(filter.highest_seen(), 200);
    assert!(filter.validate_and_record(100).is_err());
    assert!(filter.validate_and_record(150).is_ok());
    assert!(filter.validate_and_record(150).is_err());
}

#[test]
fn test_invalid_message_type_rejection() {
    assert!(MessageType::try_from(0x00).is_err());
    assert!(MessageType::try_from(0x99).is_err());
    assert!(MessageType::try_from(0xFF).is_err());
}

#[test]
fn test_transcript_hash_consistency() {
    let prologue = PROTOCOL_NAME;
    let c_e = [1u8; 32];
    let s_p = [2u8; 32];
    let s_e = [3u8; 32];

    let hash1 = hash_handshake_state(&prologue, &c_e, &s_p, Some(&s_e));
    let hash2 = hash_handshake_state(&prologue, &c_e, &s_p, Some(&s_e));
    let hash_no_se = hash_handshake_state(&prologue, &c_e, &s_p, None);

    assert_eq!(hash1, hash2);
    assert_ne!(hash1, hash_no_se);
}

#[test]
fn test_replay_filter_reset_and_helpers() {
    let mut filter = ReplayFilter::with_window_size(64);
    assert_eq!(filter.window_size(), 64);
    assert!(!filter.is_initialized());

    assert!(filter.validate_and_record(42).is_ok());
    assert!(filter.is_initialized());
    assert_eq!(filter.highest_seen(), 42);

    filter.reset();
    assert!(!filter.is_initialized());
    assert_eq!(filter.highest_seen(), 0);

    assert!(filter.validate_and_record(42).is_ok());
}

#[test]
fn test_wireframe_from_bytes_roundtrip_and_errors() {
    let frame = WireFrame::data(100, b"Buffer Data".to_vec());
    let serialized = frame.serialize();

    let parsed = WireFrame::from_bytes(&serialized).unwrap();
    assert_eq!(parsed, frame);

    let try_from_parsed = WireFrame::try_from(serialized.as_slice()).unwrap();
    assert_eq!(try_from_parsed, frame);

    assert!(WireFrame::from_bytes(&[0u8; 10]).is_err());

    let mut corrupted_len = serialized.clone();
    corrupted_len[0..4].copy_from_slice(&500u32.to_be_bytes());
    assert!(WireFrame::from_bytes(&corrupted_len).is_err());

    let mut corrupted_type = serialized.clone();
    corrupted_type[4] = 0xFE;
    assert!(WireFrame::from_bytes(&corrupted_type).is_err());
}

#[test]
fn test_replay_filter_metrics() {
    let mut filter = ReplayFilter::new();
    assert_eq!(filter.total_seen(), 0);
    assert_eq!(filter.total_accepted(), 0);
    assert_eq!(filter.total_rejected(), 0);

    assert!(filter.validate_and_record(10).is_ok());
    assert!(filter.validate_and_record(11).is_ok());
    assert_eq!(filter.total_seen(), 2);
    assert_eq!(filter.total_accepted(), 2);
    assert_eq!(filter.total_rejected(), 0);

    assert!(filter.validate_and_record(10).is_err());
    assert_eq!(filter.total_seen(), 3);
    assert_eq!(filter.total_accepted(), 2);
    assert_eq!(filter.total_rejected(), 1);

    filter.reset();
    assert_eq!(filter.total_seen(), 0);
    assert_eq!(filter.total_accepted(), 0);
    assert_eq!(filter.total_rejected(), 0);
}

#[test]
fn test_wireframe_serialize_into_buffer_reuse() {
    let frame1 = WireFrame::data(1, b"first".to_vec());
    let frame2 = WireFrame::data(2, b"second".to_vec());

    let mut buffer = Vec::new();
    frame1.serialize_into(&mut buffer);
    let len1 = buffer.len();

    let parsed1 = WireFrame::from_bytes(&buffer[..len1]).unwrap();
    assert_eq!(parsed1, frame1);

    buffer.clear();
    frame2.serialize_into(&mut buffer);
    let parsed2 = WireFrame::from_bytes(&buffer).unwrap();
    assert_eq!(parsed2, frame2);
}

#[test]
fn test_wireframe_payload_slice_and_replay_filter_display() {
    let payload = b"slice test payload".to_vec();
    let frame = WireFrame::data(42, payload.clone());
    assert_eq!(frame.payload_slice(), payload.as_slice());

    let mut filter = ReplayFilter::with_window_size(64);
    filter.validate_and_record(10).unwrap();
    let display_str = filter.to_string();
    assert!(display_str.contains("window=64"));
    assert!(display_str.contains("last_seq=10"));
    assert!(display_str.contains("accepted=1/1"));
    assert!(display_str.contains("rejected=0"));
}

#[test]
fn test_message_type_predicates_and_byte_conversion() {
    let init = MessageType::HandshakeInit;
    assert_eq!(init.as_u8(), 0x01);
    assert!(init.is_handshake());
    assert!(!init.is_data());
    assert!(!init.is_heartbeat());
    assert!(!init.is_close());

    let resp = MessageType::HandshakeResp;
    assert_eq!(resp.as_u8(), 0x02);
    assert!(resp.is_handshake());

    let data = MessageType::DataPayload;
    assert_eq!(data.as_u8(), 0x03);
    assert!(data.is_data());
    assert!(!data.is_handshake());

    let hb = MessageType::Heartbeat;
    assert_eq!(hb.as_u8(), 0x04);
    assert!(hb.is_heartbeat());

    let close = MessageType::Close;
    assert_eq!(close.as_u8(), 0x05);
    assert!(close.is_close());
}

#[test]
fn test_wireframe_accessors_and_replay_filter_has_seen() {
    let frame = WireFrame::data(77, b"payload".to_vec());
    assert_eq!(frame.nonce(), 77);
    assert_eq!(frame.msg_type(), MessageType::DataPayload);

    let mut filter = ReplayFilter::with_window_size(64);
    assert_eq!(filter.capacity(), 64);
    assert!(!filter.has_seen(10));

    filter.validate_and_record(10).unwrap();
    assert!(filter.has_seen(10));
    assert!(!filter.has_seen(11));

    filter.validate_and_record(100).unwrap();
    assert!(filter.has_seen(10));
}

#[test]
fn test_wireframe_from_bytes_integration() {
    let frames = vec![
        WireFrame::handshake_init(0, vec![1, 2, 3, 4, 5]),
        WireFrame::handshake_resp(0, vec![6, 7, 8, 9, 10]),
        WireFrame::data(12345, b"Test payload bytes".to_vec()),
        WireFrame::heartbeat(999, b"PING".to_vec()),
        WireFrame::close(1000),
    ];

    for frame in frames {
        let serialized = frame.serialize();
        let parsed = WireFrame::from_bytes(&serialized).unwrap();
        assert_eq!(parsed, frame);

        let try_parsed = WireFrame::try_from(serialized.as_slice()).unwrap();
        assert_eq!(try_parsed, frame);
    }
}

#[test]
fn test_wireframe_serialization_roundtrip() {
    let frame = WireFrame::new(MessageType::DataPayload, 42, b"Hemmelig Payload".to_vec());
    let serialized = frame.serialize();

    let mut prefix = [0u8; 4];
    prefix.copy_from_slice(&serialized[..4]);
    let body_len = WireFrame::body_len_from_prefix(prefix).unwrap();
    assert_eq!(body_len, serialized.len() - 4);
    let parsed = WireFrame::from_body(&serialized[4..]).unwrap();

    assert_eq!(parsed.msg_type, MessageType::DataPayload);
    assert_eq!(parsed.nonce, 42);
    assert_eq!(parsed.payload, b"Hemmelig Payload");
}

#[test]
fn test_oversized_frame_rejection() {
    let too_large = (MAX_FRAME_SIZE + 10) as u32;
    let res = WireFrame::body_len_from_prefix(too_large.to_be_bytes());
    assert!(res.is_err(), "Overdimensjonert ramme må avvises!");
}

#[test]
fn capacity_helpers_and_wireframe_data_from_slice() {
    assert_eq!(available_capacity(Some(10), 0), Some(10));
    assert!(!is_at_capacity(Some(10), 0));

    let raw_slice = b"Integration test payload slice";
    let frame = WireFrame::data_from_slice(1234, raw_slice);
    assert_eq!(frame.nonce(), 1234);
    assert!(frame.is_data());
    assert_eq!(frame.payload_slice(), raw_slice);

    let serialized = frame.serialize();
    let parsed = WireFrame::from_bytes(&serialized).unwrap();
    assert_eq!(parsed, frame);
}
