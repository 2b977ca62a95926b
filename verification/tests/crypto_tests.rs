use noise_tunnel_rs::crypto::{
    derive_session_keys, diffie_hellman, CipherState, EphemeralKeyPair, KeyPair, KEY_LEN,
};

#[test]
fn test_x25519_key_exchange_agreement() {
    let alice = KeyPair::generate();
    let bob = KeyPair::generate();

    let alice_shared = diffie_hellman(&alice.private_key, &bob.public_key);
    let bob_shared = diffie_hellman(&bob.private_key, &alice.public_key);

    assert_eq!(
        alice_shared, bob_shared,
        "Diffie-Hellman hemmeligheter må være identiske!"
    );
}

#[test]
fn test_aead_encryption_and_decryption() {
    let key = [0x42u8; KEY_LEN];
    let mut sender_cipher = CipherState::new(key);
    let mut receiver_cipher = CipherState::new(key);

    let secret_msg = b"Topphemmelig melding over tunnelen!";
    let aad = b"header-metadata-v1";

    let ciphertext = sender_cipher.encrypt(secret_msg, aad).unwrap();
    assert_ne!(ciphertext, secret_msg);

    let decrypted = receiver_cipher.decrypt(&ciphertext, aad, 0).unwrap();
    assert_eq!(decrypted, secret_msg);
}

#[test]
fn test_aead_tamper_detection() {
    let key = [0x55u8; KEY_LEN];
    let mut sender = CipherState::new(key);
    let mut receiver = CipherState::new(key);

    let mut ciphertext = sender.encrypt(b"Valid Data", b"aad").unwrap();
    ciphertext[0] ^= 0x01;

    let result = receiver.decrypt(&ciphertext, b"aad", 0);
    assert!(
        result.is_err(),
        "Manipulert chiffertekst må avvises av AEAD MAC-sjekk!"
    );
}

#[test]
fn test_hkdf_session_key_derivation_deterministic() {
    let secret = [0x11u8; KEY_LEN];
    let hash = [0x22u8; 32];

    let (c1, s1) = derive_session_keys(&secret, &hash).unwrap();
    let (c2, s2) = derive_session_keys(&secret, &hash).unwrap();

    assert_eq!(c1, c2);
    assert_eq!(s1, s2);
    assert_ne!(c1, s1, "Klient- og server-nøkler må være unike");
}

#[test]
fn test_keypair_hex_roundtrip_and_parsing() {
    let keypair = KeyPair::generate();
    let priv_hex = keypair.private_key_hex();
    let pub_hex = keypair.public_key_hex();

    assert_eq!(priv_hex.len(), KEY_LEN * 2);
    assert_eq!(pub_hex.len(), KEY_LEN * 2);

    let restored = KeyPair::from_private_hex(&priv_hex).unwrap();
    assert_eq!(restored.public_key, keypair.public_key);
    assert_eq!(restored.private_key, keypair.private_key);

    let parsed_pub = KeyPair::parse_public_key_hex(&pub_hex).unwrap();
    assert_eq!(parsed_pub, keypair.public_key);

    assert!(KeyPair::from_private_hex("invalid-hex").is_err());
    assert!(KeyPair::from_private_hex("aabbcc").is_err());
    assert!(KeyPair::parse_public_key_hex("1234").is_err());
}

#[test]
fn test_keypair_debug_redacts_private_key() {
    let keypair = KeyPair::generate();
    let debug_str = keypair.debug_string();
    assert!(debug_str.contains("[REDACTED]"));
    assert!(!debug_str.contains(&hex::encode(keypair.private_key)));
    assert!(debug_str.contains(&keypair.public_key_hex()));
}

#[test]
fn test_keypair_default_generates_valid_keypair() {
    let keypair = KeyPair::default();
    assert_ne!(keypair.private_key, [0u8; KEY_LEN]);
    assert_ne!(keypair.public_key, [0u8; KEY_LEN]);
}

#[test]
fn ephemeral_and_static_keys_agree() {
    let e = EphemeralKeyPair::generate();
    let k = KeyPair::from_private_bytes([9u8; 32]);
    assert_eq!(e.diffie_hellman(&k.public_key), diffie_hellman(&k.private_key, &e.public_key));
}
