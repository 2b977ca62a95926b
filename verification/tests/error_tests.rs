use noise_tunnel_rs::TunnelError;

#[test]
fn test_error_display_formatting() {
    let crypto_err = TunnelError::Crypto("Ugyldig MAC".to_string());
    assert_eq!(crypto_err.to_string(), "Kryptografisk feil: Ugyldig MAC");

    let replay_err = TunnelError::Replay {
        seq: 42,
        reason: "Duplikat".to_string(),
    };
    assert!(replay_err.to_string().contains("sekvensnummer 42"));
    assert!(replay_err.to_string().contains("Duplikat"));

    let len_err = TunnelError::InvalidLength {
        expected: 32,
        actual: 16,
    };
    assert_eq!(
        len_err.to_string(),
        "Ugyldig datalengde: forventet 32 bytes, mottok 16 bytes"
    );

    let cap_err = TunnelError::CapacityExceeded(100);
    assert_eq!(
        cap_err.to_string(),
        "Maksimal serverkapasitet nådd (100 forbindelser)"
    );
}
