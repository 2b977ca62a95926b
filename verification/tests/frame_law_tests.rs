use noise_tunnel_rs::protocol::{MessageType, ReplayFilter, WireFrame, MAX_FRAME_SIZE};
use noise_tunnel_rs::TunnelError;

fn frame_error(r: Result<WireFrame, TunnelError>) -> String {
    match r {
        Err(TunnelError::Frame(m)) => m,
        _ => panic!("expected a frame error"),
    }
}

#[test]
fn frame_wire_layout() {
    let frame = WireFrame::heartbeat(0x0102030405060708, vec![0xaa, 0xbb]);
    assert_eq!(
        frame.serialize(),
        vec![0, 0, 0, 11, 4, 1, 2, 3, 4, 5, 6, 7, 8, 0xaa, 0xbb]
    );
    let mut buffer = vec![9u8];
    frame.serialize_into(&mut buffer);
    assert_eq!(buffer[0], 9);
    assert_eq!(&buffer[1..], frame.serialize().as_slice());
}

#[test]
fn frame_roundtrip_at_the_size_limit() {
    let frame = WireFrame::data(u64::MAX, vec![0x5a; MAX_FRAME_SIZE - 9]);
    assert_eq!(WireFrame::from_bytes(&frame.serialize()).unwrap(), frame);
    let too_big = WireFrame::data(1, vec![0x5a; MAX_FRAME_SIZE - 8]);
    assert_eq!(
        frame_error(WireFrame::from_bytes(&too_big.serialize())),
        "Mottok overdimensjonert pakke (65537), avviser for å forhindre DoS"
    );
}

#[test]
fn frame_error_texts() {
    assert_eq!(
        frame_error(WireFrame::from_bytes(&[0u8; 10])),
        "Mottok for kort buffer for WireFrame: 10 bytes (krever minst 13 bytes)"
    );
    let mut bytes = WireFrame::close(1).serialize();
    bytes[3] = 99;
    assert_eq!(
        frame_error(WireFrame::from_bytes(&bytes)),
        "Uoverensstemmelse i rammelengde: spesifisert 99, faktisk bufferlengde 9"
    );
    bytes[3] = 9;
    bytes[4] = 0xfe;
    assert_eq!(
        frame_error(WireFrame::from_bytes(&bytes)),
        "Ukjent meldingstype mottatt over wire: 0xfe"
    );
    assert_eq!(
        frame_error(WireFrame::from_body(&[3u8; 5])),
        "Mottok for kort wire-ramme: 5 bytes"
    );
    match WireFrame::body_len_from_prefix([0, 0, 0, 8]) {
        Err(TunnelError::Frame(m)) => assert_eq!(m, "Mottok for kort wire-ramme: 8 bytes"),
        _ => panic!("short body must be refused"),
    }
    assert_eq!(WireFrame::body_len_from_prefix([0, 1, 0, 0]).unwrap(), 65536);
    match MessageType::try_from(0x0a) {
        Err(TunnelError::Frame(m)) => assert_eq!(m, "Ukjent meldingstype mottatt over wire: 0x0a"),
        _ => panic!("unknown type must be refused"),
    }
}

#[test]
fn replay_seen_numbers_stay_seen() {
    let mut filter = ReplayFilter::with_window_size(4);
    for seq in [5u64, 3, 4, 9, 7] {
        filter.validate_and_record(seq).unwrap();
        assert!(filter.has_seen(seq));
    }
    for seq in [5u64, 3, 4, 9, 7, 0, 1, 2] {
        assert!(filter.has_seen(seq));
        assert!(filter.validate_and_record(seq).is_err());
    }
    assert!(!filter.has_seen(8));
    assert!(!filter.has_seen(10));
    assert_eq!(filter.total_seen(), 13);
    assert_eq!(filter.total_accepted(), 5);
    assert_eq!(filter.total_rejected(), 8);
}

#[test]
fn replay_error_reasons_and_window_clamping() {
    assert_eq!(ReplayFilter::with_window_size(0).window_size(), 1);
    assert_eq!(ReplayFilter::with_window_size(500).window_size(), 128);
    assert_eq!(ReplayFilter::default().window_size(), 128);
    let mut filter = ReplayFilter::with_window_size(8);
    filter.validate_and_record(100).unwrap();
    match filter.validate_and_record(92) {
        Err(TunnelError::Other(m)) => {
            assert_eq!(m, "REPLAY DETECTED! Sekvensnummer 92 er for gammelt (utenfor vinduet på 8)");
        }
        _ => panic!("old number must be refused"),
    }
    assert!(filter.validate_and_record(93).is_ok());
    assert!(filter.validate_and_record(u64::MAX).is_ok());
    assert!(filter.has_seen(100));
}

#[test]
fn replay_highest_is_largest_validated() {
    let mut filter = ReplayFilter::with_window_size(64);
    assert!(!filter.is_initialized());
    assert_eq!(filter.highest_seen(), 0);
    let mut largest = 0u64;
    for seq in [100u64, 200, 100, 150, 30, 250, 249] {
        let _ = filter.validate_and_record(seq);
        largest = largest.max(seq);
        assert!(filter.is_initialized());
        assert_eq!(filter.highest_seen(), largest);
        assert!(filter.has_seen(filter.highest_seen()));
    }
    assert_eq!(filter.highest_seen(), 250);
    assert_eq!(filter.total_seen(), 7);
    assert_eq!(filter.total_accepted() + filter.total_rejected(), filter.total_seen());
    filter.reset();
    assert!(!filter.is_initialized());
    assert_eq!(filter.total_seen(), 0);
}
