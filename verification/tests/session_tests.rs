use noise_tunnel_rs::crypto::{EphemeralKeyPair, KeyPair};
use noise_tunnel_rs::handshake::{ClientHandshake, ServerAction, ServerHandshake};
use noise_tunnel_rs::protocol::{MessageType, WireFrame, PROTOCOL_NAME};
use noise_tunnel_rs::TunnelError;

fn established(
    prologue_client: &[u8],
    prologue_server: &[u8],
) -> (
    KeyPair,
    Result<(noise_tunnel_rs::ClientSession, noise_tunnel_rs::ServerSession), TunnelError>,
) {
    let server_keys = KeyPair::generate();
    let (client_hs, init) = ClientHandshake::start(server_keys.public_key, prologue_client);
    let wire = init.serialize();
    let init = WireFrame::from_bytes(&wire).unwrap();
    let accepted = ServerHandshake::accept(&server_keys, prologue_server, &init);
    let result = match accepted {
        Err(e) => Err(e),
        Ok((server_session, resp)) => {
            let resp = WireFrame::from_bytes(&resp.serialize()).unwrap();
            match client_hs.finish(&resp) {
                Ok(client_session) => Ok((client_session, server_session)),
                Err(e) => Err(e),
            }
        }
    };
    (server_keys, result)
}

#[test]
fn in_memory_handshake_and_echo() {
    let (_keys, result) = established(&PROTOCOL_NAME, &PROTOCOL_NAME);
    let (mut client, mut server) = result.unwrap();

    let frame = client.encrypt_message("Hei fra sikker Rust-klient!").unwrap();
    assert_eq!(frame.msg_type, MessageType::DataPayload);
    assert_eq!(frame.nonce, 0);
    let reply = match server.handle_frame(&frame).unwrap() {
        ServerAction::Reply(f) => f,
        _ => panic!("expected a reply"),
    };
    assert!(reply.is_data());
    assert_eq!(reply.nonce, 0);
    let text = client.decrypt_reply(&reply).unwrap();
    assert_eq!(text, "Server mottok: Hei fra sikker Rust-klient!");

    let empty = client.encrypt_message("").unwrap();
    let reply = match server.handle_frame(&empty).unwrap() {
        ServerAction::Reply(f) => f,
        _ => panic!("expected a reply"),
    };
    assert_eq!(client.decrypt_reply(&reply).unwrap(), "Server mottok: ");
    assert_eq!(client.tx_nonce(), 2);
    assert_eq!(client.rx_nonce(), 2);
    assert_eq!(server.rx_nonce(), 2);
    assert_eq!(server.tx_nonce(), 2);
}

#[test]
fn in_memory_heartbeats_and_close() {
    let (_keys, result) = established(&PROTOCOL_NAME, &PROTOCOL_NAME);
    let (mut client, mut server) = result.unwrap();
    for seq in 0..5u64 {
        let ping = client.encrypt_ping().unwrap();
        assert_eq!(ping.nonce, seq);
        assert!(ping.is_heartbeat());
        let pong = match server.handle_frame(&ping).unwrap() {
            ServerAction::Reply(f) => f,
            _ => panic!("expected a pong"),
        };
        assert!(pong.is_heartbeat());
        assert_eq!(pong.nonce, seq);
        client.decrypt_pong(&pong).unwrap();
    }
    let data = client.encrypt_message("Data etter heartbeats").unwrap();
    let reply = match server.handle_frame(&data).unwrap() {
        ServerAction::Reply(f) => f,
        _ => panic!("expected a reply"),
    };
    assert_eq!(
        client.decrypt_reply(&reply).unwrap(),
        "Server mottok: Data etter heartbeats"
    );
    let close = client.close_frame();
    assert!(close.is_close());
    assert_eq!(close.nonce, 6);
    assert!(matches!(server.handle_frame(&close).unwrap(), ServerAction::Close));
    let stray = WireFrame::handshake_init(0, vec![1, 2, 3]);
    assert!(matches!(server.handle_frame(&stray).unwrap(), ServerAction::Ignore));
}

#[test]
fn in_memory_replayed_frame_rejected() {
    let (_keys, result) = established(&PROTOCOL_NAME, &PROTOCOL_NAME);
    let (mut client, mut server) = result.unwrap();
    let frame = client.encrypt_message("Original packet").unwrap();
    assert!(server.handle_frame(&frame).is_ok());
    match server.handle_frame(&frame) {
        Err(TunnelError::Other(m)) => {
            assert_eq!(m, "REPLAY DETECTED! Sekvensnummer 0 har allerede blitt prosessert!");
        }
        _ => panic!("replayed frame must be refused"),
    }
}

#[test]
fn in_memory_tampered_frame_rejected() {
    let (_keys, result) = established(&PROTOCOL_NAME, &PROTOCOL_NAME);
    let (mut client, mut server) = result.unwrap();
    let mut frame = client.encrypt_message("Viktig").unwrap();
    frame.payload[0] ^= 0x01;
    match server.handle_frame(&frame) {
        Err(TunnelError::Crypto(m)) => {
            assert_eq!(m, "AEAD-dekryptering feilet: Ugyldig MAC-tag eller manipulert pakke!")
        }
        _ => panic!("tampered frame must be refused"),
    }
}

#[test]
fn in_memory_out_of_order_nonce_rejected() {
    let (_keys, result) = established(&PROTOCOL_NAME, &PROTOCOL_NAME);
    let (mut client, mut server) = result.unwrap();
    let _first = client.encrypt_message("first").unwrap();
    let second = client.encrypt_message("second").unwrap();
    match server.handle_frame(&second) {
        Err(TunnelError::Crypto(m)) => {
            assert_eq!(m, "Ugyldig nonce rekkefølge! Forventet 0, mottok 1")
        }
        _ => panic!("a skipped nonce must be refused"),
    }
}

#[test]
fn wrong_server_key_fails_handshake() {
    let server_keys = KeyPair::generate();
    let attacker = KeyPair::generate();
    let (_client_hs, init) = ClientHandshake::start(attacker.public_key, &PROTOCOL_NAME);
    match ServerHandshake::accept(&server_keys, &PROTOCOL_NAME, &init) {
        Err(TunnelError::Crypto(_)) => {}
        _ => panic!("a handshake for another key must be refused"),
    }
}

#[test]
fn mismatched_prologue_fails_handshake() {
    let (_keys, result) = established(b"Noise_Custom_App_Namespace_v2", b"Noise_Mismatch_Namespace_v1");
    assert!(result.is_err());
    let (_keys, result) = established(b"Noise_Custom_App_Namespace_v2", b"Noise_Custom_App_Namespace_v2");
    assert!(result.is_ok());
}

#[test]
fn malformed_handshake_messages_rejected() {
    let server_keys = KeyPair::generate();
    let short = WireFrame::new(MessageType::HandshakeInit, 0, vec![0x42u8; 10]);
    match ServerHandshake::accept(&server_keys, &PROTOCOL_NAME, &short) {
        Err(TunnelError::Handshake(m)) => assert_eq!(m, "Ugyldig HandshakeInit payload-størrelse"),
        _ => panic!("short payload must be refused"),
    }
    let wrong_type = WireFrame::data(0, vec![0u8; 64]);
    match ServerHandshake::verify_init(&server_keys, &PROTOCOL_NAME, &wrong_type) {
        Err(TunnelError::Handshake(m)) => {
            assert_eq!(m, "Forventet HandshakeInit, mottok DataPayload")
        }
        _ => panic!("wrong type must be refused"),
    }

    let (client_hs, _init) = ClientHandshake::start(server_keys.public_key, &PROTOCOL_NAME);
    let bad_resp = WireFrame::handshake_resp(0, vec![7u8; 20]);
    match client_hs.finish(&bad_resp) {
        Err(TunnelError::Handshake(m)) => {
            assert_eq!(m, "Ugyldig HandshakeResp payload-storrelse fra server")
        }
        _ => panic!("short response must be refused"),
    }
}

#[test]
fn deterministic_handshake_with_fixed_ephemeral_keys() {
    let server_keys = KeyPair::from_private_bytes([7u8; 32]);
    let client_eph = EphemeralKeyPair::from_secret_bytes([9u8; 32]);
    let client_pub = client_eph.public_key;
    let (client_hs, init) = ClientHandshake::start_with(client_eph, server_keys.public_key, &PROTOCOL_NAME);
    assert_eq!(init.payload.len(), 69);
    assert_eq!(&init.payload[..32], &client_pub);
    let hs = ServerHandshake::verify_init(&server_keys, &PROTOCOL_NAME, &init).unwrap();
    let server_eph = EphemeralKeyPair::from_secret_bytes([11u8; 32]);
    let server_eph_pub = server_eph.public_key;
    let (mut server, resp) = hs.respond_with(server_eph);
    assert_eq!(resp.payload.len(), 70);
    assert_eq!(&resp.payload[..32], &server_eph_pub);
    let mut client = client_hs.finish(&resp).unwrap();
    let frame = client.encrypt_message("fast").unwrap();
    match server.handle_frame(&frame).unwrap() {
        ServerAction::Reply(f) => assert_eq!(client.decrypt_reply(&f).unwrap(), "Server mottok: fast"),
        _ => panic!("expected a reply"),
    }
}
