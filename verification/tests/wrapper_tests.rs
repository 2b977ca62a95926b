use chacha20poly1305::aead::{Aead, KeyInit, Payload};
use chacha20poly1305::{ChaCha20Poly1305, Key, Nonce};
use noise_tunnel_rs::crypto::{derive_session_keys, diffie_hellman, CipherState, EphemeralKeyPair, KeyPair};
use noise_tunnel_rs::protocol::hash_handshake_state;
use noise_tunnel_rs::server::{admits_connection, available_capacity, is_at_capacity};
use noise_tunnel_rs::verify::{
    test_nonce_progression, test_packet_tampering_detection, test_replay_attack_rejection,
};
use noise_tunnel_rs::TunnelError;
use sha2::{Digest, Sha256};

#[test]
fn transcript_hash_is_sha256_of_concatenation() {
    let prologue = b"abc";
    let ce = [1u8; 32];
    let sp = [2u8; 32];
    let se = [3u8; 32];
    let mut data = Vec::new();
    data.extend_from_slice(prologue);
    data.extend_from_slice(&ce);
    data.extend_from_slice(&sp);
    let expected_first: [u8; 32] = Sha256::digest(&data).into();
    assert_eq!(hash_handshake_state(prologue, &ce, &sp, None), expected_first);
    data.extend_from_slice(&se);
    let expected_second: [u8; 32] = Sha256::digest(&data).into();
    assert_eq!(hash_handshake_state(prologue, &ce, &sp, Some(&se)), expected_second);
}

#[test]
fn x25519_rfc7748_vector() {
    let alice_private: [u8; 32] =
        hex::decode("77076d0a7318a57d3c16c17251b26645df4c2f87ebc0992ab177fba51db92c2a")
            .unwrap()
            .try_into()
            .unwrap();
    let bob_private: [u8; 32] =
        hex::decode("5dab087e624a8a4b79e17f8b83800ee66f3bb1292618b6fd1c2f8b27ff88e0eb")
            .unwrap()
            .try_into()
            .unwrap();
    let alice = KeyPair::from_private_bytes(alice_private);
    let bob = KeyPair::from_private_bytes(bob_private);
    assert_eq!(
        alice.public_key_hex(),
        "8520f0098930a754748b7ddcb43ef75a0dbf3a0d26381af4eba4a98eaa9b4e6a"
    );
    assert_eq!(
        bob.public_key_hex(),
        "de9edb7d7b7dc1b4d35b61c2ece435373f8343c85b78674dadfc7e146f882b4f"
    );
    let shared = diffie_hellman(&alice.private_key, &bob.public_key);
    assert_eq!(
        hex::encode(shared),
        "4a5d9d5ba4ce2de1728e3bf480350f25e07e21c947d19e3376f09b3c1e161742"
    );
    let eph = EphemeralKeyPair::from_secret_bytes(alice_private);
    assert_eq!(eph.public_key, alice.public_key);
    assert_eq!(eph.diffie_hellman(&bob.public_key), shared);
}

#[test]
fn hkdf_keys_match_the_crate() {
    let secret = [0x11u8; 32];
    let hash = [0x22u8; 32];
    let (c, s) = derive_session_keys(&secret, &hash).unwrap();
    let hk = hkdf::Hkdf::<Sha256>::new(Some(&hash), &secret);
    let mut expect_c = [0u8; 32];
    let mut expect_s = [0u8; 32];
    hk.expand(b"noise-tunnel-client-write-key-v1", &mut expect_c).unwrap();
    hk.expand(b"noise-tunnel-server-write-key-v1", &mut expect_s).unwrap();
    assert_eq!(c, expect_c);
    assert_eq!(s, expect_s);
    assert_ne!(c, secret);
}

#[test]
fn cipher_state_matches_the_crate_and_counts_nonces() {
    let key = [0x42u8; 32];
    let mut cipher = CipherState::new(key);
    assert_eq!(cipher.current_nonce(), 0);
    let _ = cipher.encrypt(b"first", b"aad").unwrap();
    let second = cipher.encrypt(b"second", b"aad").unwrap();
    assert_eq!(cipher.current_nonce(), 2);
    assert_eq!(second.len(), 6 + 16);
    let mut nonce = [0u8; 12];
    nonce[..8].copy_from_slice(&1u64.to_le_bytes());
    let expected = ChaCha20Poly1305::new(Key::from_slice(&key))
        .encrypt(Nonce::from_slice(&nonce), Payload { msg: b"second", aad: b"aad" })
        .unwrap();
    assert_eq!(second, expected);

    let mut receiver = CipherState::new(key);
    match receiver.decrypt(&second, b"aad", 1) {
        Err(TunnelError::Crypto(m)) => assert_eq!(m, "Ugyldig nonce rekkefølge! Forventet 0, mottok 1"),
        _ => panic!("wrong nonce must be refused"),
    }
    assert_eq!(receiver.current_nonce(), 0);
}

#[test]
fn key_hex_errors() {
    match KeyPair::from_private_hex("zz") {
        Err(TunnelError::Other(m)) => assert_eq!(
            m,
            "Ugyldig hex-enkoding for privat nøkkel: InvalidHexCharacter { c: 'z', index: 0 }"
        ),
        _ => panic!("non-hex text must give a hex error"),
    }
    match KeyPair::parse_public_key_hex("abc") {
        Err(TunnelError::Other(m)) => {
            assert_eq!(m, "Ugyldig hex-enkoding for offentlig nøkkel: OddLength")
        }
        _ => panic!("odd-length text must give a hex error"),
    }
    match KeyPair::parse_public_key_hex("  aabbcc \n") {
        Err(TunnelError::Other(m)) => assert_eq!(
            m,
            "Offentlig nøkkel må være nøyaktig 32 bytes (64 hex-tegn), mottok 3"
        ),
        _ => panic!("short key must give a length error"),
    }
    match KeyPair::from_private_hex("aabbcc") {
        Err(TunnelError::Other(m)) => assert_eq!(
            m,
            "Privat nøkkel må være nøyaktig 32 bytes (64 hex-tegn), mottok 3"
        ),
        _ => panic!("short key must give a length error"),
    }
    let k = KeyPair::from_private_bytes([5u8; 32]);
    let padded = format!("  {}\t", k.private_key_hex());
    assert_eq!(KeyPair::from_private_hex(&padded).unwrap().public_key, k.public_key);
    let upper = k.public_key_hex().to_uppercase();
    assert_eq!(KeyPair::parse_public_key_hex(&upper).unwrap(), k.public_key);
    assert_eq!(k.private_key_hex(), "05".repeat(32));
}

#[test]
fn security_self_checks_pass() {
    assert!(test_packet_tampering_detection().is_ok());
    assert!(test_replay_attack_rejection().is_ok());
    assert!(test_nonce_progression().is_ok());
}

#[test]
fn connection_admission() {
    assert!(admits_connection(None, 1000));
    assert!(admits_connection(Some(2), 1));
    assert!(!admits_connection(Some(2), 2));
    assert!(is_at_capacity(Some(0), 0));
    assert!(!is_at_capacity(None, 5));
    assert_eq!(available_capacity(Some(10), 3), Some(7));
    assert_eq!(available_capacity(Some(3), 10), Some(0));
    assert_eq!(available_capacity(None, 3), None);
}

#[test]
fn error_texts_of_every_variant() {
    assert_eq!(TunnelError::Handshake("x".to_string()).to_string(), "Handshake-feil: x");
    assert_eq!(
        TunnelError::Replay { seq: 7, reason: "r".to_string() }.to_string(),
        "Replay-angrep detektert for sekvensnummer 7: r"
    );
    assert_eq!(TunnelError::Frame("f".to_string()).to_string(), "Protokoll-rammefeil: f");
    assert_eq!(TunnelError::Timeout("t".to_string()).to_string(), "Operasjon timet ut: t");
    assert_eq!(TunnelError::Other("o".to_string()).to_string(), "Generell feil: o");
    let io = TunnelError::from(std::io::Error::new(std::io::ErrorKind::Other, "boom"));
    assert!(matches!(io, TunnelError::Io(_)));
    assert_eq!(io.to_string(), "Nettverks- og I/O-feil: boom");
    let hex_err = TunnelError::from(hex::decode("1").unwrap_err());
    assert_eq!(hex_err.to_string(), "Hex-dekodingsfeil: Odd number of digits");
    let utf8 = TunnelError::from(String::from_utf8(vec![0xff]).unwrap_err());
    assert!(utf8.to_string().starts_with("Ugyldig UTF-8 data: "));
}
