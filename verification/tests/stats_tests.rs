use noise_tunnel_rs::SessionMetrics;

#[test]
fn test_session_metrics_recording_and_reset() {
    let mut metrics = SessionMetrics::new();
    assert_eq!(metrics.total_bytes(), 0);
    assert_eq!(metrics.total_frames(), 0);

    metrics.record_tx(100);
    metrics.record_tx(250);
    assert_eq!(metrics.bytes_sent(), 350);
    assert_eq!(metrics.frames_sent(), 2);

    metrics.record_rx(500);
    assert_eq!(metrics.bytes_received(), 500);
    assert_eq!(metrics.frames_received(), 1);
    assert_eq!(metrics.total_bytes(), 850);
    assert_eq!(metrics.total_frames(), 3);

    let display_str = metrics.to_string();
    assert!(display_str.contains("TX: 2 frames (350 B)"));
    assert!(display_str.contains("RX: 1 frames (500 B)"));
    assert!(display_str.contains("Total: 850 B"));

    metrics.reset();
    assert_eq!(metrics.total_bytes(), 0);
    assert_eq!(metrics.total_frames(), 0);
    assert_eq!(metrics.bytes_sent(), 0);
    assert_eq!(metrics.bytes_received(), 0);
}
