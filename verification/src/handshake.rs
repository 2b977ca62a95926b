//! The one-round-trip handshake (Noise NK pattern) and the encrypted
//! transport that follows it, as state machines that take and give frames.
//! Sending and receiving the frames is left to the caller.
use vstd::prelude::*;
use vstd::utf8::encode_utf8;

use crate::bytes::{array32_at, push_all};
use crate::crypto::primitives::{
    aead_len_ok, chacha20poly1305_open, chacha20poly1305_seal, sha256, x25519_public_key,
    x25519_shared_secret,
};
use crate::crypto::{
    decrypt_failed_text, derive_session_keys, diffie_hellman, encrypt_failed_text, nonce_bytes,
    nonce_order_text, nonce_overflow_text, session_keys, CipherState, CipherView,
    EphemeralKeyPair, KeyPair, KEY_LEN,
};
use crate::encoding::{string_from_utf8, string_from_utf8_lossy, utf8_lossy_chars};
use crate::error::TunnelError;
use crate::protocol::frame::WireFrame;
use crate::protocol::replay::{fresh_state, ReplayFilter, ReplayState};
use crate::protocol::{hash_handshake_state, transcript, MessageType, REPLAY_WINDOW_SIZE};

verus! {

/// The plaintext the client authenticates in its handshake message.
pub open spec fn init_plaintext() -> Seq<u8> {
    encode_utf8("HANDSHAKE_INIT_CLIENT"@)
}

/// The plaintext the server authenticates in its handshake response.
pub open spec fn ack_plaintext() -> Seq<u8> {
    encode_utf8("HANDSHAKE_COMPLETE_ACK"@)
}

/// Associated data of data frames.
pub open spec fn data_aad() -> Seq<u8> {
    encode_utf8("tunnel-data"@)
}

/// Associated data of heartbeat frames.
pub open spec fn heartbeat_aad() -> Seq<u8> {
    encode_utf8("heartbeat"@)
}

/// The plaintext of a ping.
pub open spec fn ping_plaintext() -> Seq<u8> {
    encode_utf8("PING"@)
}

/// The plaintext of a pong.
pub open spec fn pong_plaintext() -> Seq<u8> {
    encode_utf8("PONG"@)
}

/// The transcript hash before the server's ephemeral key is known.
pub open spec fn first_hash(prologue: Seq<u8>, client_eph: Seq<u8>, server_pub: Seq<u8>) -> Seq<u8> {
    sha256(transcript(prologue, client_eph, server_pub, None))
}

/// The transcript hash once the server's ephemeral key is known.
pub open spec fn second_hash(
    prologue: Seq<u8>,
    client_eph: Seq<u8>,
    server_pub: Seq<u8>,
    server_eph: Seq<u8>,
) -> Seq<u8> {
    sha256(transcript(prologue, client_eph, server_pub, Some(server_eph)))
}

/// The key that protects the client's handshake message.
pub open spec fn init_key(dh_static: Seq<u8>, h1: Seq<u8>) -> Seq<u8> {
    session_keys(dh_static, h1).0
}

/// The key that protects the server's handshake response.
pub open spec fn resp_key(dh_ephem: Seq<u8>, h2: Seq<u8>) -> Seq<u8> {
    session_keys(dh_ephem, h2).1
}

/// The transport keys (client-to-server, server-to-client) of a session.
pub open spec fn transport_keys(dh_static: Seq<u8>, dh_ephem: Seq<u8>, h2: Seq<u8>) -> (
    Seq<u8>,
    Seq<u8>,
) {
    session_keys(dh_static + dh_ephem, h2)
}

/// The payload of the client's handshake message: its ephemeral public key,
/// then the sealed handshake plaintext.
pub open spec fn init_payload(
    prologue: Seq<u8>,
    client_eph: Seq<u8>,
    server_pub: Seq<u8>,
    dh_static: Seq<u8>,
) -> Seq<u8> {
    let h1 = first_hash(prologue, client_eph, server_pub);
    client_eph + chacha20poly1305_seal(init_key(dh_static, h1), nonce_bytes(0), h1, init_plaintext())
}

/// The payload of the server's handshake response: its ephemeral public key,
/// then the sealed acknowledgement.
pub open spec fn resp_payload(
    prologue: Seq<u8>,
    client_eph: Seq<u8>,
    server_pub: Seq<u8>,
    server_eph: Seq<u8>,
    dh_ephem: Seq<u8>,
) -> Seq<u8> {
    let h2 = second_hash(prologue, client_eph, server_pub, server_eph);
    server_eph + chacha20poly1305_seal(resp_key(dh_ephem, h2), nonce_bytes(0), h2, ack_plaintext())
}

/// The message of the error for a frame of an unexpected type.
pub open spec fn unexpected_text(expected: Seq<char>, got: MessageType) -> Seq<char> {
    "Forventet "@ + expected + ", mottok "@ + got.name()
}

/// Builds the error message for a frame of an unexpected type.
fn unexpected_message(expected: &str, got: MessageType) -> (r: String)
    ensures
        r@ == unexpected_text(expected@, got),
{
    let mut m = String::from_str("Forventet ");
    m.append(expected);
    m.append(", mottok ");
    let name = got.to_string();
    m.append(name.as_str());
    m
}

/// The abstract state of a client handshake in progress.
pub struct ClientHandshakeView {
    pub ephemeral_secret: Seq<u8>,
    pub ephemeral_public: Seq<u8>,
    pub server_pubkey: Seq<u8>,
    pub prologue: Seq<u8>,
}

impl ClientHandshakeView {
    /// The static Diffie-Hellman secret: client ephemeral with server static.
    pub open spec fn dh_static(self) -> Seq<u8> {
        x25519_shared_secret(self.ephemeral_secret, self.server_pubkey)
    }
}

/// A client that has sent its handshake message and waits for the response.
pub struct ClientHandshake {
    ephemeral: EphemeralKeyPair,
    server_pubkey: [u8; 32],
    prologue: Vec<u8>,
    dh_static: [u8; 32],
}

impl ClientHandshake {
    /// The stored static secret is the Diffie-Hellman secret of the stored
    /// keys.
    #[verifier::type_invariant]
    spec fn inv(self) -> bool {
        &&& self.dh_static@ == x25519_shared_secret(self.ephemeral@.secret, self.server_pubkey@)
        &&& self.ephemeral@.public_key == x25519_public_key(self.ephemeral@.secret)
    }
}

impl View for ClientHandshake {
    type V = ClientHandshakeView;

    closed spec fn view(&self) -> ClientHandshakeView {
        ClientHandshakeView {
            ephemeral_secret: self.ephemeral@.secret,
            ephemeral_public: self.ephemeral@.public_key,
            server_pubkey: self.server_pubkey@,
            prologue: self.prologue@,
        }
    }
}

/// The abstract state of an established session: the sending and receiving
/// ciphers.
pub struct ClientSessionView {
    pub tx: CipherView,
    pub rx: CipherView,
}

/// An established client session.
pub struct ClientSession {
    tx: CipherState,
    rx: CipherState,
}

impl View for ClientSession {
    type V = ClientSessionView;

    closed spec fn view(&self) -> ClientSessionView {
        ClientSessionView { tx: self.tx@, rx: self.rx@ }
    }
}

/// The message of the error for a handshake response that is too short.
pub open spec fn short_resp_text() -> Seq<char> {
    "Ugyldig HandshakeResp payload-storrelse fra server"@
}

/// The message of the error for a wrong acknowledgement.
pub open spec fn bad_ack_text() -> Seq<char> {
    "Ugyldig bekreftelse fra server under handshake!"@
}

/// The message of the error for a client handshake message that is too short.
pub open spec fn short_init_text() -> Seq<char> {
    "Ugyldig HandshakeInit payload-størrelse"@
}

/// Whether `r` is a handshake error with message `m`.
pub open spec fn handshake_error<T>(r: Result<T, TunnelError>, m: Seq<char>) -> bool {
    r matches Err(TunnelError::Handshake(s)) && s@ == m
}

/// Whether `r` is a cryptographic error with message `m`.
pub open spec fn crypto_error<T>(r: Result<T, TunnelError>, m: Seq<char>) -> bool {
    r matches Err(TunnelError::Crypto(s)) && s@ == m
}

/// Whether `r` is a frame error with message `m`.
pub open spec fn frame_error<T>(r: Result<T, TunnelError>, m: Seq<char>) -> bool {
    r matches Err(TunnelError::Frame(s)) && s@ == m
}

impl ClientHandshake {
    /// Starts a handshake with the given ephemeral key pair: returns the
    /// waiting client and the `HandshakeInit` frame to send.
    pub fn start_with(ephemeral: EphemeralKeyPair, server_pubkey: [u8; 32], prologue: &[u8]) -> (r: (
        ClientHandshake,
        WireFrame,
    ))
        requires
            ephemeral@.public_key == x25519_public_key(ephemeral@.secret),
        ensures
            r.0@ == (ClientHandshakeView {
                ephemeral_secret: ephemeral@.secret,
                ephemeral_public: ephemeral@.public_key,
                server_pubkey: server_pubkey@,
                prologue: prologue@,
            }),
            r.1.msg_type == MessageType::HandshakeInit,
            r.1.nonce == 0,
            r.1.payload@ == init_payload(
                prologue@,
                ephemeral@.public_key,
                server_pubkey@,
                r.0@.dh_static(),
            ),
            r.1.payload@.len() == 69,
            r.1.payload@.subrange(0, 32) == r.0@.ephemeral_public,
            r.0@.ephemeral_secret.len() == 32,
            r.0@.ephemeral_public.len() == 32,
            forall|b: Seq<u8>|
                b.len() == 32 && server_pubkey@ == x25519_public_key(b) ==> #[trigger] x25519_shared_secret(
                    b,
                    r.0@.ephemeral_public,
                ) == r.0@.dh_static(),
    {
        proof {
            ephemeral.lemma_lengths();
        }
        let client_ephem_pub = ephemeral.public_key();
        let dh_static = ephemeral.diffie_hellman(&server_pubkey);
        let h1 = hash_handshake_state(prologue, &client_ephem_pub, &server_pubkey, None);
        let k_init_c = match derive_session_keys(&dh_static, &h1) {
            Ok((k, _)) => k,
            Err(_) => vstd::pervasive::unreached(),
        };
        let mut init_cipher = CipherState::new(k_init_c);
        assert(encode_utf8("HANDSHAKE_INIT_CLIENT"@).len() == 21) by {
            reveal_strlit("HANDSHAKE_INIT_CLIENT");
            vstd::utf8::is_ascii_chars_encode_utf8("HANDSHAKE_INIT_CLIENT"@);
        }
        let init_ciphertext = match init_cipher.encrypt("HANDSHAKE_INIT_CLIENT".as_bytes(), &h1) {
            Ok(c) => c,
            Err(_) => vstd::pervasive::unreached(),
        };
        let mut init_payload = Vec::new();
        push_all(&mut init_payload, &client_ephem_pub);
        push_all(&mut init_payload, init_ciphertext.as_slice());
        let prologue_vec = vstd::slice::slice_to_vec(prologue);
        let frame = WireFrame::new(MessageType::HandshakeInit, 0, init_payload);
        let hs = ClientHandshake { ephemeral, server_pubkey, prologue: prologue_vec, dh_static };
        (hs, frame)
    }

    /// Starts a handshake with a freshly generated ephemeral key pair.
    pub fn start(server_pubkey: [u8; 32], prologue: &[u8]) -> (r: (ClientHandshake, WireFrame))
        ensures
            r.0@.server_pubkey == server_pubkey@,
            r.0@.prologue == prologue@,
            r.0@.ephemeral_public == x25519_public_key(r.0@.ephemeral_secret),
            r.1.msg_type == MessageType::HandshakeInit,
            r.1.nonce == 0,
            r.1.payload@ == init_payload(
                prologue@,
                r.0@.ephemeral_public,
                server_pubkey@,
                r.0@.dh_static(),
            ),
            r.1.payload@.len() == 69,
            r.1.payload@.subrange(0, 32) == r.0@.ephemeral_public,
            r.0@.ephemeral_secret.len() == 32,
            r.0@.ephemeral_public.len() == 32,
            forall|b: Seq<u8>|
                b.len() == 32 && server_pubkey@ == x25519_public_key(b) ==> #[trigger] x25519_shared_secret(
                    b,
                    r.0@.ephemeral_public,
                ) == r.0@.dh_static(),
    {
        let ephemeral = EphemeralKeyPair::generate();
        Self::start_with(ephemeral, server_pubkey, prologue)
    }

    /// Completes the handshake with the server's `HandshakeResp` frame: checks
    /// its type and size, authenticates the acknowledgement and derives the
    /// transport keys.
    pub fn finish(self, resp: &WireFrame) -> (r: Result<ClientSession, TunnelError>)
        ensures
            !(resp.msg_type is HandshakeResp) ==> handshake_error(
                r,
                unexpected_text("HandshakeResp"@, resp.msg_type),
            ),
            resp.msg_type is HandshakeResp && resp.payload@.len() < 48 ==> handshake_error(
                r,
                short_resp_text(),
            ),
            resp.msg_type is HandshakeResp && resp.payload@.len() >= 48 ==> ({
                let hs = self@;
                let se = resp.payload@.subrange(0, 32);
                let ct = resp.payload@.subrange(32, resp.payload@.len() as int);
                let dh_ephem = x25519_shared_secret(hs.ephemeral_secret, se);
                let h2 = second_hash(hs.prologue, hs.ephemeral_public, hs.server_pubkey, se);
                let keys = transport_keys(hs.dh_static(), dh_ephem, h2);
                &&& match chacha20poly1305_open(resp_key(dh_ephem, h2), nonce_bytes(0), h2, ct) {
                    None => crypto_error(r, decrypt_failed_text()),
                    Some(p) => if p == ack_plaintext() {
                        r matches Ok(session) && session@ == (ClientSessionView {
                            tx: CipherView { key: keys.0, nonce: 0 },
                            rx: CipherView { key: keys.1, nonce: 0 },
                        })
                    } else {
                        handshake_error(r, bad_ack_text())
                    },
                }
                &&& ct == chacha20poly1305_seal(resp_key(dh_ephem, h2), nonce_bytes(0), h2, ack_plaintext())
                    ==> r is Ok
            }),
    {
        proof {
            use_type_invariant(&self);
        }
        if resp.msg_type != MessageType::HandshakeResp {
            return Err(TunnelError::Handshake(unexpected_message("HandshakeResp", resp.msg_type)));
        }
        if resp.payload.len() < KEY_LEN + 16 {
            return Err(
                TunnelError::Handshake(
                    String::from_str("Ugyldig HandshakeResp payload-storrelse fra server"),
                ),
            );
        }
        let server_ephemeral_pub = array32_at(resp.payload.as_slice(), 0);
        let resp_ciphertext = vstd::slice::slice_subrange(
            resp.payload.as_slice(),
            KEY_LEN,
            resp.payload.len(),
        );
        let dh_ephem = self.ephemeral.diffie_hellman(&server_ephemeral_pub);
        let h2 = hash_handshake_state(
            self.prologue.as_slice(),
            &self.ephemeral.public_key(),
            &self.server_pubkey,
            Some(&server_ephemeral_pub),
        );
        let k_resp_s = match derive_session_keys(&dh_ephem, &h2) {
            Ok((_, k)) => k,
            Err(_) => vstd::pervasive::unreached(),
        };
        let mut resp_cipher = CipherState::new(k_resp_s);
        assert(aead_len_ok(ack_plaintext().len())) by {
            reveal_strlit("HANDSHAKE_COMPLETE_ACK");
            vstd::utf8::is_ascii_chars_encode_utf8("HANDSHAKE_COMPLETE_ACK"@);
        }
        let resp_ack = match resp_cipher.decrypt(resp_ciphertext, &h2, 0) {
            Ok(p) => p,
            Err(e) => {
                return Err(e);
            },
        };
        let expected_ack = "HANDSHAKE_COMPLETE_ACK".as_bytes();
        if !bytes_equal(resp_ack.as_slice(), expected_ack) {
            return Err(
                TunnelError::Handshake(
                    String::from_str("Ugyldig bekreftelse fra server under handshake!"),
                ),
            );
        }
        let mut combined_secret = Vec::new();
        push_all(&mut combined_secret, &self.dh_static);
        push_all(&mut combined_secret, &dh_ephem);
        let (client_write_key, server_write_key) = match derive_session_keys(
            combined_secret.as_slice(),
            &h2,
        ) {
            Ok(keys) => keys,
            Err(_) => vstd::pervasive::unreached(),
        };
        Ok(ClientSession { tx: CipherState::new(client_write_key), rx: CipherState::new(server_write_key) })
    }
}

/// Whether two byte slices hold the same bytes.
pub fn bytes_equal(a: &[u8], b: &[u8]) -> (r: bool)
    ensures
        r == (a@ == b@),
{
    if a.len() != b.len() {
        return false;
    }
    let mut i: usize = 0;
    while i < a.len()
        invariant
            i <= a@.len(),
            a@.len() == b@.len(),
            forall|j: int| 0 <= j < i ==> a@[j] == b@[j],
        decreases a@.len() - i,
    {
        if a[i] != b[i] {
            return false;
        }
        i = i + 1;
    }
    assert(a@ =~= b@);
    true
}

/// The message of the error for a heartbeat answer that is not a pong.
pub open spec fn bad_pong_text() -> Seq<char> {
    "Ugyldig heartbeat-svar fra server"@
}

/// The message of the error for a reply that is not a data frame.
pub open spec fn unexpected_reply_text(got: MessageType) -> Seq<char> {
    unexpected_text("kryptert svarmelding"@, got)
}

impl ClientSession {
    /// Encrypts a text message as the next data frame.
    pub fn encrypt_message(&mut self, message: &str) -> (r: Result<WireFrame, TunnelError>)
        ensures
            final(self)@.rx == old(self)@.rx,
            final(self)@.tx.key == old(self)@.tx.key,
            aead_len_ok(encode_utf8(message@).len()) && old(self)@.tx.nonce < u64::MAX ==> (r matches Ok(
                f,
            ) && f.msg_type == MessageType::DataPayload && f.nonce == old(self)@.tx.nonce
                && f.payload@ == chacha20poly1305_seal(
                old(self)@.tx.key,
                nonce_bytes(old(self)@.tx.nonce),
                data_aad(),
                encode_utf8(message@),
            ) && final(self)@.tx.nonce == old(self)@.tx.nonce + 1),
            !aead_len_ok(encode_utf8(message@).len()) ==> (crypto_error(r, encrypt_failed_text())
                && final(self)@ == old(self)@),
            aead_len_ok(encode_utf8(message@).len()) && old(self)@.tx.nonce == u64::MAX ==> (
            crypto_error(r, nonce_overflow_text()) && final(self)@ == old(self)@),
    {
        let tx_nonce = self.tx.current_nonce();
        let encrypted = self.tx.encrypt(message.as_bytes(), "tunnel-data".as_bytes())?;
        Ok(WireFrame::new(MessageType::DataPayload, tx_nonce, encrypted))
    }

    /// Encrypts a ping as the next heartbeat frame.
    pub fn encrypt_ping(&mut self) -> (r: Result<WireFrame, TunnelError>)
        ensures
            final(self)@.rx == old(self)@.rx,
            final(self)@.tx.key == old(self)@.tx.key,
            old(self)@.tx.nonce < u64::MAX ==> (r matches Ok(f) && f.msg_type == MessageType::Heartbeat
                && f.nonce == old(self)@.tx.nonce && f.payload@ == chacha20poly1305_seal(
                old(self)@.tx.key,
                nonce_bytes(old(self)@.tx.nonce),
                heartbeat_aad(),
                ping_plaintext(),
            ) && final(self)@.tx.nonce == old(self)@.tx.nonce + 1),
            old(self)@.tx.nonce == u64::MAX ==> (crypto_error(r, nonce_overflow_text())
                && final(self)@ == old(self)@),
    {
        assert(aead_len_ok(ping_plaintext().len())) by {
            reveal_strlit("PING");
            vstd::utf8::is_ascii_chars_encode_utf8("PING"@);
        }
        let tx_nonce = self.tx.current_nonce();
        let encrypted = self.tx.encrypt("PING".as_bytes(), "heartbeat".as_bytes())?;
        Ok(WireFrame::heartbeat(tx_nonce, encrypted))
    }

    /// Decrypts the server's data frame into its text.
    pub fn decrypt_reply(&mut self, frame: &WireFrame) -> (r: Result<String, TunnelError>)
        ensures
            final(self)@.tx == old(self)@.tx,
            final(self)@.rx.key == old(self)@.rx.key,
            !(frame.msg_type is DataPayload) ==> frame_error(r, unexpected_reply_text(frame.msg_type))
                && final(self)@ == old(self)@,
            frame.msg_type is DataPayload && frame.nonce != old(self)@.rx.nonce ==> crypto_error(
                r,
                nonce_order_text(old(self)@.rx.nonce, frame.nonce),
            ) && final(self)@ == old(self)@,
            frame.msg_type is DataPayload && frame.nonce == old(self)@.rx.nonce ==> match chacha20poly1305_open(
                old(self)@.rx.key,
                nonce_bytes(frame.nonce),
                data_aad(),
                frame.payload@,
            ) {
                None => crypto_error(r, decrypt_failed_text()) && final(self)@ == old(self)@,
                Some(p) => if old(self)@.rx.nonce == u64::MAX {
                    crypto_error(r, nonce_overflow_text()) && final(self)@ == old(self)@
                } else {
                    final(self)@.rx.nonce == old(self)@.rx.nonce + 1 && (if vstd::utf8::valid_utf8(
                    p,
                ) {
                    r matches Ok(text) && text@ == vstd::utf8::decode_utf8(p)
                } else {
                    r matches Err(TunnelError::Utf8(_))
                })
                },
            },
            forall|t: Seq<char>|
                frame.msg_type is DataPayload && frame.nonce == old(self)@.rx.nonce
                    && old(self)@.rx.nonce < u64::MAX && aead_len_ok(
                    encode_utf8(t).len(),
                ) && #[trigger] chacha20poly1305_seal(
                    old(self)@.rx.key,
                    nonce_bytes(frame.nonce),
                    data_aad(),
                    encode_utf8(t),
                ) == frame.payload@ ==> (r matches Ok(text) && text@ == t),
    {
        if frame.msg_type != MessageType::DataPayload {
            return Err(TunnelError::Frame(unexpected_message("kryptert svarmelding", frame.msg_type)));
        }
        proof {
            broadcast use vstd::utf8::encode_utf8_valid_utf8, vstd::utf8::encode_utf8_decode_utf8;
        }
        let decrypted = self.rx.decrypt(frame.payload.as_slice(), "tunnel-data".as_bytes(), frame.nonce)?;
        match string_from_utf8(decrypted) {
            Ok(text) => Ok(text),
            Err(e) => Err(TunnelError::Utf8(e)),
        }
    }

    /// Decrypts the server's heartbeat frame and checks that it is a pong.
    pub fn decrypt_pong(&mut self, frame: &WireFrame) -> (r: Result<(), TunnelError>)
        ensures
            final(self)@.tx == old(self)@.tx,
            final(self)@.rx.key == old(self)@.rx.key,
            !(frame.msg_type is Heartbeat) ==> frame_error(r, unexpected_text("Heartbeat"@, frame.msg_type))
                && final(self)@ == old(self)@,
            frame.msg_type is Heartbeat && frame.nonce != old(self)@.rx.nonce ==> crypto_error(
                r,
                nonce_order_text(old(self)@.rx.nonce, frame.nonce),
            ) && final(self)@ == old(self)@,
            frame.msg_type is Heartbeat && frame.nonce == old(self)@.rx.nonce ==> match chacha20poly1305_open(
                old(self)@.rx.key,
                nonce_bytes(frame.nonce),
                heartbeat_aad(),
                frame.payload@,
            ) {
                None => crypto_error(r, decrypt_failed_text()) && final(self)@ == old(self)@,
                Some(p) => if old(self)@.rx.nonce == u64::MAX {
                    crypto_error(r, nonce_overflow_text()) && final(self)@ == old(self)@
                } else {
                    final(self)@.rx.nonce == old(self)@.rx.nonce + 1 && (if p == pong_plaintext() {
                        r is Ok
                    } else {
                        handshake_error(r, bad_pong_text())
                    })
                },
            },
    {
        if frame.msg_type != MessageType::Heartbeat {
            return Err(TunnelError::Frame(unexpected_message("Heartbeat", frame.msg_type)));
        }
        let decrypted = self.rx.decrypt(frame.payload.as_slice(), "heartbeat".as_bytes(), frame.nonce)?;
        if bytes_equal(decrypted.as_slice(), "PONG".as_bytes()) {
            Ok(())
        } else {
            Err(TunnelError::Handshake(String::from_str("Ugyldig heartbeat-svar fra server")))
        }
    }

    /// The `Close` frame that ends the session, numbered with the next
    /// sending nonce.
    pub fn close_frame(&self) -> (r: WireFrame)
        ensures
            r.msg_type == MessageType::Close,
            r.nonce == self@.tx.nonce,
            r.payload@.len() == 0,
    {
        WireFrame::close(self.tx.current_nonce())
    }

    /// The sending nonce counter.
    pub fn tx_nonce(&self) -> (r: u64)
        ensures
            r == self@.tx.nonce,
    {
        self.tx.current_nonce()
    }

    /// The receiving nonce counter.
    pub fn rx_nonce(&self) -> (r: u64)
        ensures
            r == self@.rx.nonce,
    {
        self.rx.current_nonce()
    }
}

/// The abstract state of a server that accepted a client's handshake message.
pub struct ServerHandshakeView {
    pub server_public: Seq<u8>,
    pub prologue: Seq<u8>,
    pub client_ephemeral: Seq<u8>,
    pub dh_static: Seq<u8>,
}

/// A server that accepted a client's handshake message and is about to
/// respond.
pub struct ServerHandshake {
    server_public: [u8; 32],
    prologue: Vec<u8>,
    client_ephemeral: [u8; 32],
    dh_static: [u8; 32],
}

impl View for ServerHandshake {
    type V = ServerHandshakeView;

    closed spec fn view(&self) -> ServerHandshakeView {
        ServerHandshakeView {
            server_public: self.server_public@,
            prologue: self.prologue@,
            client_ephemeral: self.client_ephemeral@,
            dh_static: self.dh_static@,
        }
    }
}

/// The abstract state of a server session: receiving and sending ciphers and
/// the replay filter.
pub struct ServerSessionView {
    pub rx: CipherView,
    pub tx: CipherView,
    pub replay: ReplayState,
}

/// An established server session.
pub struct ServerSession {
    rx: CipherState,
    tx: CipherState,
    replay: ReplayFilter,
}

impl View for ServerSession {
    type V = ServerSessionView;

    closed spec fn view(&self) -> ServerSessionView {
        ServerSessionView { rx: self.rx@, tx: self.tx@, replay: self.replay@ }
    }
}

/// What the server does after handling a frame.
pub enum ServerAction {
    /// Send this frame back.
    Reply(WireFrame),
    /// The client closed the session.
    Close,
    /// The frame is not expected during transport and is ignored.
    Ignore,
}

/// Whether the server with this static key pair and prologue accepts a
/// client handshake message of type `msg_type` with `payload`.
pub open spec fn init_accepted(
    server_private: Seq<u8>,
    server_public: Seq<u8>,
    prologue: Seq<u8>,
    msg_type: MessageType,
    payload: Seq<u8>,
) -> bool {
    &&& msg_type is HandshakeInit
    &&& payload.len() >= 48
    &&& ({
        let ce = payload.subrange(0, 32);
        let ct = payload.subrange(32, payload.len() as int);
        let dh = x25519_shared_secret(server_private, ce);
        let h1 = first_hash(prologue, ce, server_public);
        chacha20poly1305_open(init_key(dh, h1), nonce_bytes(0), h1, ct) is Some
    })
}

/// The error with which the server refuses a client handshake message.
pub open spec fn verify_init_error(
    server_private: Seq<u8>,
    server_public: Seq<u8>,
    prologue: Seq<u8>,
    msg_type: MessageType,
    payload: Seq<u8>,
    e: TunnelError,
) -> bool {
    if !(msg_type is HandshakeInit) {
        e matches TunnelError::Handshake(s) && s@ == unexpected_text("HandshakeInit"@, msg_type)
    } else if payload.len() < 48 {
        e matches TunnelError::Handshake(s) && s@ == short_init_text()
    } else {
        e matches TunnelError::Crypto(s) && s@ == decrypt_failed_text()
    }
}

/// The session and the response payload of a server handshake answered with
/// the ephemeral key pair (`eph_secret`, `eph_public`).
pub open spec fn response_of(hs: ServerHandshakeView, eph_secret: Seq<u8>, eph_public: Seq<u8>) -> (
    ServerSessionView,
    Seq<u8>,
) {
    let dh_ephem = x25519_shared_secret(eph_secret, hs.client_ephemeral);
    let h2 = second_hash(hs.prologue, hs.client_ephemeral, hs.server_public, eph_public);
    let keys = transport_keys(hs.dh_static, dh_ephem, h2);
    (
        ServerSessionView {
            rx: CipherView { key: keys.0, nonce: 0 },
            tx: CipherView { key: keys.1, nonce: 0 },
            replay: fresh_state(REPLAY_WINDOW_SIZE),
        },
        resp_payload(hs.prologue, hs.client_ephemeral, hs.server_public, eph_public, dh_ephem),
    )
}

impl ServerHandshake {
    /// Checks the client's `HandshakeInit` frame against the server's static
    /// key pair and prologue: its type, its size and the authentication of its
    /// sealed part. The decrypted content itself is not checked.
    pub fn verify_init(server_keys: &KeyPair, prologue: &[u8], init: &WireFrame) -> (r: Result<
        ServerHandshake,
        TunnelError,
    >)
        ensures
            !(init.msg_type is HandshakeInit) ==> handshake_error(
                r,
                unexpected_text("HandshakeInit"@, init.msg_type),
            ),
            init.msg_type is HandshakeInit && init.payload@.len() < 48 ==> handshake_error(
                r,
                short_init_text(),
            ),
            r is Ok <==> init_accepted(
                server_keys.private_key@,
                server_keys.public_key@,
                prologue@,
                init.msg_type,
                init.payload@,
            ),
            r is Err ==> (r matches Err(e) && verify_init_error(
                server_keys.private_key@,
                server_keys.public_key@,
                prologue@,
                init.msg_type,
                init.payload@,
                e,
            )),
            init.msg_type is HandshakeInit && init.payload@.len() >= 48 ==> ({
                let ce = init.payload@.subrange(0, 32);
                let ct = init.payload@.subrange(32, init.payload@.len() as int);
                let dh = x25519_shared_secret(server_keys.private_key@, ce);
                let h1 = first_hash(prologue@, ce, server_keys.public_key@);
                &&& match chacha20poly1305_open(init_key(dh, h1), nonce_bytes(0), h1, ct) {
                    None => crypto_error(r, decrypt_failed_text()),
                    Some(_) => r matches Ok(hs) && hs@ == (ServerHandshakeView {
                        server_public: server_keys.public_key@,
                        prologue: prologue@,
                        client_ephemeral: ce,
                        dh_static: dh,
                    }),
                }
                &&& forall|p: Seq<u8>|
                    aead_len_ok(p.len()) && #[trigger] chacha20poly1305_seal(
                        init_key(dh, h1),
                        nonce_bytes(0),
                        h1,
                        p,
                    ) == ct ==> r is Ok
            }),
    {
        if init.msg_type != MessageType::HandshakeInit {
            return Err(TunnelError::Handshake(unexpected_message("HandshakeInit", init.msg_type)));
        }
        if init.payload.len() < KEY_LEN + 16 {
            return Err(
                TunnelError::Handshake(String::from_str("Ugyldig HandshakeInit payload-størrelse")),
            );
        }
        let client_ephemeral = array32_at(init.payload.as_slice(), 0);
        let init_ciphertext = vstd::slice::slice_subrange(
            init.payload.as_slice(),
            KEY_LEN,
            init.payload.len(),
        );
        let dh_static = diffie_hellman(&server_keys.private_key, &client_ephemeral);
        let h1 = hash_handshake_state(prologue, &client_ephemeral, &server_keys.public_key, None);
        let k_init_c = match derive_session_keys(&dh_static, &h1) {
            Ok((k, _)) => k,
            Err(_) => vstd::pervasive::unreached(),
        };
        let mut init_cipher = CipherState::new(k_init_c);
        match init_cipher.decrypt(init_ciphertext, &h1, 0) {
            Ok(_) => {},
            Err(e) => {
                return Err(e);
            },
        }
        Ok(
            ServerHandshake {
                server_public: server_keys.public_key,
                prologue: vstd::slice::slice_to_vec(prologue),
                client_ephemeral,
                dh_static,
            },
        )
    }

    /// Answers the accepted handshake with the given ephemeral key pair:
    /// returns the established session and the `HandshakeResp` frame to send.
    pub fn respond_with(self, ephemeral: EphemeralKeyPair) -> (r: (ServerSession, WireFrame))
        requires
            ephemeral@.public_key == x25519_public_key(ephemeral@.secret),
        ensures
            r.0@ == response_of(self@, ephemeral@.secret, ephemeral@.public_key).0,
            r.1.msg_type == MessageType::HandshakeResp,
            r.1.nonce == 0,
            r.1.payload@ == response_of(self@, ephemeral@.secret, ephemeral@.public_key).1,
            r.1.payload@.len() == 70,
            r.1.payload@.subrange(0, 32) == ephemeral@.public_key,
            forall|b: Seq<u8>|
                b.len() == 32 && self@.client_ephemeral == x25519_public_key(b) ==> #[trigger] x25519_shared_secret(
                    b,
                    ephemeral@.public_key,
                ) == x25519_shared_secret(ephemeral@.secret, self@.client_ephemeral),
    {
        let server_ephem_pub = ephemeral.public_key();
        let dh_ephem = ephemeral.diffie_hellman(&self.client_ephemeral);
        let mut combined_secret = Vec::new();
        push_all(&mut combined_secret, &self.dh_static);
        push_all(&mut combined_secret, &dh_ephem);
        let h2 = hash_handshake_state(
            self.prologue.as_slice(),
            &self.client_ephemeral,
            &self.server_public,
            Some(&server_ephem_pub),
        );
        let (client_write_key, server_write_key) = match derive_session_keys(
            combined_secret.as_slice(),
            &h2,
        ) {
            Ok(keys) => keys,
            Err(_) => vstd::pervasive::unreached(),
        };
        let k_resp_s = match derive_session_keys(&dh_ephem, &h2) {
            Ok((_, k)) => k,
            Err(_) => vstd::pervasive::unreached(),
        };
        let mut resp_cipher = CipherState::new(k_resp_s);
        assert(ack_plaintext().len() == 22) by {
            reveal_strlit("HANDSHAKE_COMPLETE_ACK");
            vstd::utf8::is_ascii_chars_encode_utf8("HANDSHAKE_COMPLETE_ACK"@);
        }
        let resp_ciphertext = match resp_cipher.encrypt("HANDSHAKE_COMPLETE_ACK".as_bytes(), &h2) {
            Ok(c) => c,
            Err(_) => vstd::pervasive::unreached(),
        };
        let mut resp_payload = Vec::new();
        push_all(&mut resp_payload, &server_ephem_pub);
        push_all(&mut resp_payload, resp_ciphertext.as_slice());
        let frame = WireFrame::new(MessageType::HandshakeResp, 0, resp_payload);
        let session = ServerSession {
            rx: CipherState::new(client_write_key),
            tx: CipherState::new(server_write_key),
            replay: ReplayFilter::new(),
        };
        assert(frame.payload@.subrange(0, 32) =~= server_ephem_pub@);
        (session, frame)
    }

    /// Checks the client's handshake message and answers it with a freshly
    /// generated ephemeral key pair.
    pub fn accept(server_keys: &KeyPair, prologue: &[u8], init: &WireFrame) -> (r: Result<
        (ServerSession, WireFrame),
        TunnelError,
    >)
        ensures
            r is Ok <==> init_accepted(
                server_keys.private_key@,
                server_keys.public_key@,
                prologue@,
                init.msg_type,
                init.payload@,
            ),
            r matches Ok((session, frame)) ==> ({
                let hs = ServerHandshakeView {
                    server_public: server_keys.public_key@,
                    prologue: prologue@,
                    client_ephemeral: init.payload@.subrange(0, 32),
                    dh_static: x25519_shared_secret(
                        server_keys.private_key@,
                        init.payload@.subrange(0, 32),
                    ),
                };
                &&& frame.msg_type == MessageType::HandshakeResp
                &&& frame.nonce == 0
                &&& frame.payload@.len() == 70
                &&& exists|eph_secret: Seq<u8>|
                    #![trigger response_of(hs, eph_secret, x25519_public_key(eph_secret))]
                    {
                        &&& eph_secret.len() == 32
                        &&& session@ == response_of(hs, eph_secret, x25519_public_key(eph_secret)).0
                        &&& frame.payload@ == response_of(
                            hs,
                            eph_secret,
                            x25519_public_key(eph_secret),
                        ).1
                        &&& frame.payload@.subrange(0, 32) == x25519_public_key(eph_secret)
                        &&& forall|b: Seq<u8>|
                            b.len() == 32 && hs.client_ephemeral == x25519_public_key(b)
                                ==> #[trigger] x25519_shared_secret(b, x25519_public_key(eph_secret))
                                == x25519_shared_secret(eph_secret, hs.client_ephemeral)
                    }
            }),
            init.msg_type is HandshakeInit && init.payload@.len() >= 48 ==> ({
                let ce = init.payload@.subrange(0, 32);
                let ct = init.payload@.subrange(32, init.payload@.len() as int);
                let dh = x25519_shared_secret(server_keys.private_key@, ce);
                let h1 = first_hash(prologue@, ce, server_keys.public_key@);
                forall|p: Seq<u8>|
                    aead_len_ok(p.len()) && #[trigger] chacha20poly1305_seal(
                        init_key(dh, h1),
                        nonce_bytes(0),
                        h1,
                        p,
                    ) == ct ==> r is Ok
            }),
            r is Err ==> (r matches Err(e) && verify_init_error(
                server_keys.private_key@,
                server_keys.public_key@,
                prologue@,
                init.msg_type,
                init.payload@,
                e,
            )),
    {
        let hs = Self::verify_init(server_keys, prologue, init)?;
        let ephemeral = EphemeralKeyPair::generate();
        let ghost secret = ephemeral@.secret;
        proof {
            ephemeral.lemma_lengths();
        }
        let out = hs.respond_with(ephemeral);
        assert(out.0@ == response_of(hs@, secret, x25519_public_key(secret)).0);
        Ok(out)
    }
}

/// The text the server reads from the bytes `p`: their UTF-8 decoding when
/// valid, otherwise what lossy decoding makes of them.
pub open spec fn received_text(p: Seq<u8>) -> Seq<char> {
    if vstd::utf8::valid_utf8(p) {
        vstd::utf8::decode_utf8(p)
    } else {
        utf8_lossy_chars(p)
    }
}

/// The plaintext of the server's answer to a data frame that decrypted to `p`.
pub open spec fn echo_plaintext(p: Seq<u8>) -> Seq<u8> {
    encode_utf8("Server mottok: "@ + received_text(p))
}

/// The server echoes a text message `m` as `Server mottok: ` followed by `m`.
pub proof fn law_echo_of_text(m: Seq<char>)
    ensures
        echo_plaintext(encode_utf8(m)) == encode_utf8("Server mottok: "@ + m),
{
    vstd::utf8::encode_utf8_valid_utf8(m);
    vstd::utf8::encode_utf8_decode_utf8(m);
}

/// Whether the server may handle one more frame: the replay filter is well
/// formed and its counter of validated frames is not exhausted.
pub open spec fn can_receive(s: ServerSessionView) -> bool {
    &&& s.replay.wf()
    &&& s.replay.total_seen < u64::MAX
}

/// What handling a data or heartbeat frame does, once the frame is past the
/// replay filter and its nonce is the expected one and it decrypted to `p`:
/// the answer is sealed under the sending cipher, or encryption is refused.
pub open spec fn answered(
    old_tx: CipherView,
    new_tx: CipherView,
    kind: MessageType,
    aad: Seq<u8>,
    out: Seq<u8>,
    r: Result<ServerAction, TunnelError>,
) -> bool {
    if aead_len_ok(out.len()) && old_tx.nonce < u64::MAX {
        &&& r matches Ok(ServerAction::Reply(f)) && f.msg_type == kind && f.nonce == old_tx.nonce
            && f.payload@ == chacha20poly1305_seal(old_tx.key, nonce_bytes(old_tx.nonce), aad, out)
        &&& new_tx == (CipherView { key: old_tx.key, nonce: (old_tx.nonce + 1) as u64 })
    } else {
        r matches Err(TunnelError::Crypto(_)) && new_tx == old_tx
    }
}

/// The associated data of transport frames of type `kind`.
pub open spec fn aad_of(kind: MessageType) -> Seq<u8> {
    if kind is DataPayload {
        data_aad()
    } else {
        heartbeat_aad()
    }
}

/// The plaintext the server answers a transport frame of type `kind` with,
/// when the frame decrypted to `p`.
pub open spec fn answer_of(kind: MessageType, p: Seq<u8>) -> Seq<u8> {
    if kind is DataPayload {
        echo_plaintext(p)
    } else {
        pong_plaintext()
    }
}

/// What handling a data (`kind` = `DataPayload`) or heartbeat frame with this
/// nonce and payload does to the session `s`, becoming `t`, with result `r`.
pub open spec fn transport_step(
    s: ServerSessionView,
    t: ServerSessionView,
    kind: MessageType,
    nonce: u64,
    payload: Seq<u8>,
    r: Result<ServerAction, TunnelError>,
) -> bool {
    let aad = aad_of(kind);
    &&& t.replay == s.replay.after(nonce)
    &&& if s.replay.seen(nonce) {
        &&& r matches Err(TunnelError::Other(m)) && m@ == s.replay.refusal_text(nonce)
        &&& t.rx == s.rx && t.tx == s.tx
    } else if nonce != s.rx.nonce {
        crypto_error(r, nonce_order_text(s.rx.nonce, nonce)) && t.rx == s.rx && t.tx
            == s.tx
    } else {
        match chacha20poly1305_open(s.rx.key, nonce_bytes(nonce), aad, payload) {
            None => crypto_error(r, decrypt_failed_text()) && t.rx == s.rx && t.tx == s.tx,
            Some(p) => if s.rx.nonce == u64::MAX {
                crypto_error(r, nonce_overflow_text()) && t.rx == s.rx && t.tx == s.tx
            } else {
                &&& t.rx == (CipherView { key: s.rx.key, nonce: (s.rx.nonce + 1) as u64 })
                &&& answered(s.tx, t.tx, kind, aad, answer_of(kind, p), r)
            },
        }
    }
}

impl ServerSession {
    /// Whether one more frame can be handled: the replay filter's counter of
    /// validated frames is not exhausted.
    pub fn can_receive(&self) -> (r: bool)
        ensures
            r == (self@.replay.total_seen < u64::MAX),
    {
        self.replay.total_seen() < u64::MAX
    }

    /// Handles one transport frame: a data frame is answered with an
    /// encrypted echo, a heartbeat with an encrypted pong, a `Close` frame
    /// ends the session and handshake frames are ignored. Data and heartbeat
    /// frames pass the replay filter first and must carry the next receiving
    /// nonce.
    pub fn handle_frame(&mut self, frame: &WireFrame) -> (r: Result<ServerAction, TunnelError>)
        requires
            can_receive(old(self)@),
        ensures
            final(self)@.replay.wf(),
            frame.msg_type is Close ==> (r matches Ok(ServerAction::Close)
                && final(self)@ == old(self)@),
            frame.msg_type is HandshakeInit || frame.msg_type is HandshakeResp ==> (r matches Ok(
                ServerAction::Ignore,
            ) && final(self)@ == old(self)@),
            frame.msg_type is DataPayload || frame.msg_type is Heartbeat ==> transport_step(
                old(self)@,
                final(self)@,
                frame.msg_type,
                frame.nonce,
                frame.payload@,
                r,
            ),
            forall|p: Seq<u8>|
                (frame.msg_type is DataPayload || frame.msg_type is Heartbeat)
                    && !old(self)@.replay.seen(frame.nonce) && frame.nonce == old(self)@.rx.nonce
                    && old(self)@.rx.nonce < u64::MAX && aead_len_ok(p.len()) && #[trigger] chacha20poly1305_seal(
                    old(self)@.rx.key,
                    nonce_bytes(frame.nonce),
                    aad_of(frame.msg_type),
                    p,
                ) == frame.payload@ ==> answered(
                    old(self)@.tx,
                    final(self)@.tx,
                    frame.msg_type,
                    aad_of(frame.msg_type),
                    answer_of(frame.msg_type, p),
                    r,
                ),
    {
        proof {
            crate::protocol::replay::law_seen_is_permanent(self.replay@, frame.nonce, frame.nonce);
        }
        match frame.msg_type {
            MessageType::DataPayload => {
                self.replay.validate_and_record(frame.nonce)?;
                let plaintext = self.rx.decrypt(
                    frame.payload.as_slice(),
                    "tunnel-data".as_bytes(),
                    frame.nonce,
                )?;
                let text = string_from_utf8_lossy(plaintext.as_slice());
                let mut reply_msg = String::from_str("Server mottok: ");
                reply_msg.append(text.as_str());
                let reply_nonce = self.tx.current_nonce();
                let encrypted_reply = self.tx.encrypt(
                    reply_msg.as_str().as_bytes(),
                    "tunnel-data".as_bytes(),
                )?;
                Ok(ServerAction::Reply(WireFrame::data(reply_nonce, encrypted_reply)))
            },
            MessageType::Heartbeat => {
                self.replay.validate_and_record(frame.nonce)?;
                let _ = self.rx.decrypt(frame.payload.as_slice(), "heartbeat".as_bytes(), frame.nonce)?;
                assert(aead_len_ok(pong_plaintext().len())) by {
                    reveal_strlit("PONG");
                    vstd::utf8::is_ascii_chars_encode_utf8("PONG"@);
                }
                let pong_nonce = self.tx.current_nonce();
                let pong = self.tx.encrypt("PONG".as_bytes(), "heartbeat".as_bytes())?;
                Ok(ServerAction::Reply(WireFrame::heartbeat(pong_nonce, pong)))
            },
            MessageType::Close => Ok(ServerAction::Close),
            _ => Ok(ServerAction::Ignore),
        }
    }

    /// The receiving nonce counter.
    pub fn rx_nonce(&self) -> (r: u64)
        ensures
            r == self@.rx.nonce,
    {
        self.rx.current_nonce()
    }

    /// The sending nonce counter.
    pub fn tx_nonce(&self) -> (r: u64)
        ensures
            r == self@.tx.nonce,
    {
        self.tx.current_nonce()
    }
}

/// Handshake agreement: when the client's ephemeral key and the server's keys
/// agree under X25519 (each side's Diffie-Hellman secret equals the other's),
/// the sealed part of the client's handshake message is exactly what the
/// server authenticates, the sealed part of the server's response is exactly
/// what the client authenticates, and both sides derive the same transport
/// keys: the client's sending key is the server's receiving key and the other
/// way round. The public keys are the 32-byte keys of the three secrets.
/// The two agreement premises are what `ClientHandshake::start` and
/// `ServerHandshake::respond_with` state of the Diffie-Hellman secrets they
/// compute, for 32-byte peer secrets.
pub proof fn law_handshake_agreement(
    prologue: Seq<u8>,
    server_private: Seq<u8>,
    server_public: [u8; 32],
    client_secret: Seq<u8>,
    client_public: [u8; 32],
    server_eph_secret: Seq<u8>,
    server_eph_public: [u8; 32],
)
    requires
        server_public@ == x25519_public_key(server_private),
        client_public@ == x25519_public_key(client_secret),
        server_eph_public@ == x25519_public_key(server_eph_secret),
        x25519_shared_secret(client_secret, server_public@) == x25519_shared_secret(
            server_private,
            client_public@,
        ),
        x25519_shared_secret(client_secret, server_eph_public@) == x25519_shared_secret(
            server_eph_secret,
            client_public@,
        ),
    ensures
        ({
            let spub = server_public@;
            let cpub = client_public@;
            let sepub = server_eph_public@;
            let client = ClientHandshakeView {
                ephemeral_secret: client_secret,
                ephemeral_public: cpub,
                server_pubkey: spub,
                prologue,
            };
            let init = init_payload(prologue, cpub, spub, client.dh_static());
            let dh_s = x25519_shared_secret(server_private, cpub);
            let h1 = first_hash(prologue, cpub, spub);
            let server = ServerHandshakeView {
                server_public: spub,
                prologue,
                client_ephemeral: cpub,
                dh_static: dh_s,
            };
            let (session, resp) = response_of(server, server_eph_secret, sepub);
            let dh_e = x25519_shared_secret(client_secret, sepub);
            let h2 = second_hash(prologue, cpub, spub, sepub);
            let keys = transport_keys(client.dh_static(), dh_e, h2);
            &&& init.subrange(0, 32) == cpub
            &&& init.subrange(32, init.len() as int) == chacha20poly1305_seal(
                init_key(dh_s, h1),
                nonce_bytes(0),
                h1,
                init_plaintext(),
            )
            &&& resp.subrange(0, 32) == sepub
            &&& resp.subrange(32, resp.len() as int) == chacha20poly1305_seal(
                resp_key(dh_e, h2),
                nonce_bytes(0),
                h2,
                ack_plaintext(),
            )
            &&& session.rx.key == keys.0
            &&& session.tx.key == keys.1
        }),
{
    let spub = server_public@;
    let cpub = client_public@;
    let sepub = server_eph_public@;
    let dh_s = x25519_shared_secret(server_private, cpub);
    let h1 = first_hash(prologue, cpub, spub);
    let ct1 = chacha20poly1305_seal(init_key(dh_s, h1), nonce_bytes(0), h1, init_plaintext());
    let init = cpub + ct1;
    assert(init.subrange(0, 32) =~= cpub);
    assert(init.subrange(32, init.len() as int) =~= ct1);
    let dh_e = x25519_shared_secret(client_secret, sepub);
    let h2 = second_hash(prologue, cpub, spub, sepub);
    let ct2 = chacha20poly1305_seal(resp_key(dh_e, h2), nonce_bytes(0), h2, ack_plaintext());
    let resp = sepub + ct2;
    assert(resp.subrange(32, resp.len() as int) =~= ct2);
    assert(resp.subrange(0, 32) =~= sepub);
}

/// The server authenticates the handshake message that `ClientHandshake::start`
/// makes. Take a server key pair (32-byte `server_private`, `server_public`
/// its X25519 public key) and a client handshake `client` with its message
/// payload `init`, as `start` returns them for that public key and
/// `prologue`, with the Diffie-Hellman agreement `start` states. Then `init`
/// starts with the client's ephemeral key and its sealed part is what the
/// server opens with the key it derives, so `ServerHandshake::accept`
/// succeeds.
pub proof fn law_init_authenticates(
    prologue: Seq<u8>,
    server_private: Seq<u8>,
    server_public: Seq<u8>,
    client: ClientHandshakeView,
    init: Seq<u8>,
)
    requires
        server_private.len() == 32,
        server_public == x25519_public_key(server_private),
        client.server_pubkey == server_public,
        client.prologue == prologue,
        client.ephemeral_public.len() == 32,
        init == init_payload(prologue, client.ephemeral_public, server_public, client.dh_static()),
        forall|b: Seq<u8>|
            b.len() == 32 && server_public == x25519_public_key(b) ==> #[trigger] x25519_shared_secret(
                b,
                client.ephemeral_public,
            ) == client.dh_static(),
    ensures
        ({
            let cpub = client.ephemeral_public;
            let dh_s = x25519_shared_secret(server_private, cpub);
            let h1 = first_hash(prologue, cpub, server_public);
            &&& init.len() >= 48 ==> init.subrange(32, init.len() as int)
                == chacha20poly1305_seal(init_key(dh_s, h1), nonce_bytes(0), h1, init_plaintext())
            &&& init.subrange(0, 32) == cpub
            &&& dh_s == client.dh_static()
            &&& aead_len_ok(init_plaintext().len())
        }),
{
    let cpub = client.ephemeral_public;
    let dh_s = x25519_shared_secret(server_private, cpub);
    assert(dh_s == client.dh_static());
    let h1 = first_hash(prologue, cpub, server_public);
    let ct1 = chacha20poly1305_seal(init_key(dh_s, h1), nonce_bytes(0), h1, init_plaintext());
    assert(init.subrange(0, 32) =~= cpub);
    assert(init.subrange(32, init.len() as int) =~= ct1);
    assert(aead_len_ok(init_plaintext().len())) by {
        reveal_strlit("HANDSHAKE_INIT_CLIENT");
        vstd::utf8::is_ascii_chars_encode_utf8("HANDSHAKE_INIT_CLIENT"@);
    }
}

/// Handshakes made by `ClientHandshake::start` and `ServerHandshake::accept`
/// match. With the client handshake as in `law_init_authenticates`, take the
/// server's ephemeral secret `eph_secret` (32 bytes, with a 32-byte public
/// key) and the Diffie-Hellman agreement that `accept` states of it. Then
/// the server's response starts with its ephemeral public key and its sealed
/// part is what the client opens with the key it derives, so
/// `ClientHandshake::finish` succeeds, and the two sessions hold the same
/// transport keys: the client's sending key is the server's receiving key
/// and the other way round.
pub proof fn law_handshake_sessions_match(
    prologue: Seq<u8>,
    server_private: Seq<u8>,
    server_public: Seq<u8>,
    client: ClientHandshakeView,
    eph_secret: Seq<u8>,
)
    requires
        server_private.len() == 32,
        server_public == x25519_public_key(server_private),
        client.server_pubkey == server_public,
        client.prologue == prologue,
        client.ephemeral_secret.len() == 32,
        client.ephemeral_public == x25519_public_key(client.ephemeral_secret),
        client.ephemeral_public.len() == 32,
        forall|b: Seq<u8>|
            b.len() == 32 && server_public == x25519_public_key(b) ==> #[trigger] x25519_shared_secret(
                b,
                client.ephemeral_public,
            ) == client.dh_static(),
        eph_secret.len() == 32,
        x25519_public_key(eph_secret).len() == 32,
        forall|b: Seq<u8>|
            b.len() == 32 && client.ephemeral_public == x25519_public_key(b) ==> #[trigger] x25519_shared_secret(
                b,
                x25519_public_key(eph_secret),
            ) == x25519_shared_secret(eph_secret, client.ephemeral_public),
    ensures
        ({
            let cpub = client.ephemeral_public;
            let sepub = x25519_public_key(eph_secret);
            let hs = ServerHandshakeView {
                server_public,
                prologue,
                client_ephemeral: cpub,
                dh_static: x25519_shared_secret(server_private, cpub),
            };
            let (session, resp) = response_of(hs, eph_secret, sepub);
            let se = resp.subrange(0, 32);
            let dh_e = x25519_shared_secret(client.ephemeral_secret, se);
            let h2 = second_hash(prologue, cpub, server_public, se);
            let keys = transport_keys(client.dh_static(), dh_e, h2);
            &&& se == sepub
            &&& resp.len() >= 48 ==> resp.subrange(32, resp.len() as int) == chacha20poly1305_seal(
                resp_key(dh_e, h2),
                nonce_bytes(0),
                h2,
                ack_plaintext(),
            )
            &&& session.rx.key == keys.0
            &&& session.tx.key == keys.1
        }),
{
    let cpub = client.ephemeral_public;
    let sepub = x25519_public_key(eph_secret);
    assert(x25519_shared_secret(server_private, cpub) == client.dh_static());
    let dh_e = x25519_shared_secret(eph_secret, cpub);
    assert(x25519_shared_secret(client.ephemeral_secret, sepub) == dh_e);
    let h2 = second_hash(prologue, cpub, server_public, sepub);
    let ct2 = chacha20poly1305_seal(resp_key(dh_e, h2), nonce_bytes(0), h2, ack_plaintext());
    let resp = sepub + ct2;
    assert(resp.subrange(0, 32) =~= sepub);
    assert(resp.subrange(32, resp.len() as int) =~= ct2);
}


/// The labels and fixed plaintexts of the protocol, as bytes: data frames
/// are authenticated with `tunnel-data` and heartbeats with `heartbeat` (two
/// different labels); a ping carries `PING` and the server's heartbeat answer
/// `PONG`; the handshake seals `HANDSHAKE_INIT_CLIENT` and
/// `HANDSHAKE_COMPLETE_ACK`.
pub proof fn law_protocol_labels(p: Seq<u8>)
    ensures
        data_aad() == seq![0x74u8, 0x75u8, 0x6eu8, 0x6eu8, 0x65u8, 0x6cu8, 0x2du8, 0x64u8, 0x61u8, 0x74u8, 0x61u8],
        heartbeat_aad() == seq![0x68u8, 0x65u8, 0x61u8, 0x72u8, 0x74u8, 0x62u8, 0x65u8, 0x61u8, 0x74u8],
        data_aad() != heartbeat_aad(),
        aad_of(MessageType::DataPayload) == seq![0x74u8, 0x75u8, 0x6eu8, 0x6eu8, 0x65u8, 0x6cu8, 0x2du8, 0x64u8, 0x61u8, 0x74u8, 0x61u8],
        aad_of(MessageType::Heartbeat) == seq![0x68u8, 0x65u8, 0x61u8, 0x72u8, 0x74u8, 0x62u8, 0x65u8, 0x61u8, 0x74u8],
        ping_plaintext() == seq![0x50u8, 0x49u8, 0x4eu8, 0x47u8],
        pong_plaintext() == seq![0x50u8, 0x4fu8, 0x4eu8, 0x47u8],
        answer_of(MessageType::Heartbeat, p) == seq![0x50u8, 0x4fu8, 0x4eu8, 0x47u8],
        init_plaintext() == seq![0x48u8, 0x41u8, 0x4eu8, 0x44u8, 0x53u8, 0x48u8, 0x41u8, 0x4bu8, 0x45u8, 0x5fu8, 0x49u8, 0x4eu8, 0x49u8, 0x54u8, 0x5fu8, 0x43u8, 0x4cu8, 0x49u8, 0x45u8, 0x4eu8, 0x54u8],
        ack_plaintext() == seq![0x48u8, 0x41u8, 0x4eu8, 0x44u8, 0x53u8, 0x48u8, 0x41u8, 0x4bu8, 0x45u8, 0x5fu8, 0x43u8, 0x4fu8, 0x4du8, 0x50u8, 0x4cu8, 0x45u8, 0x54u8, 0x45u8, 0x5fu8, 0x41u8, 0x43u8, 0x4bu8],
{
    reveal_strlit("tunnel-data");
    reveal_strlit("heartbeat");
    reveal_strlit("PING");
    reveal_strlit("PONG");
    reveal_strlit("HANDSHAKE_INIT_CLIENT");
    reveal_strlit("HANDSHAKE_COMPLETE_ACK");
    crate::text::lemma_ascii_encoding("tunnel-data"@, seq![0x74u8, 0x75u8, 0x6eu8, 0x6eu8, 0x65u8, 0x6cu8, 0x2du8, 0x64u8, 0x61u8, 0x74u8, 0x61u8]);
    crate::text::lemma_ascii_encoding("heartbeat"@, seq![0x68u8, 0x65u8, 0x61u8, 0x72u8, 0x74u8, 0x62u8, 0x65u8, 0x61u8, 0x74u8]);
    crate::text::lemma_ascii_encoding("PING"@, seq![0x50u8, 0x49u8, 0x4eu8, 0x47u8]);
    crate::text::lemma_ascii_encoding("PONG"@, seq![0x50u8, 0x4fu8, 0x4eu8, 0x47u8]);
    crate::text::lemma_ascii_encoding("HANDSHAKE_INIT_CLIENT"@, seq![0x48u8, 0x41u8, 0x4eu8, 0x44u8, 0x53u8, 0x48u8, 0x41u8, 0x4bu8, 0x45u8, 0x5fu8, 0x49u8, 0x4eu8, 0x49u8, 0x54u8, 0x5fu8, 0x43u8, 0x4cu8, 0x49u8, 0x45u8, 0x4eu8, 0x54u8]);
    crate::text::lemma_ascii_encoding("HANDSHAKE_COMPLETE_ACK"@, seq![0x48u8, 0x41u8, 0x4eu8, 0x44u8, 0x53u8, 0x48u8, 0x41u8, 0x4bu8, 0x45u8, 0x5fu8, 0x43u8, 0x4fu8, 0x4du8, 0x50u8, 0x4cu8, 0x45u8, 0x54u8, 0x45u8, 0x5fu8, 0x41u8, 0x43u8, 0x4bu8]);
    assert(data_aad().len() != heartbeat_aad().len());
}

/// The transcript hashes are SHA-256 of `prologue || e_c || S_s` and of
/// `prologue || e_c || S_s || e_s`: both depend on the prologue.
pub proof fn law_transcript_hashes(prologue: Seq<u8>, client_eph: Seq<u8>, server_pub: Seq<u8>, server_eph: Seq<u8>)
    ensures
        first_hash(prologue, client_eph, server_pub) == sha256(prologue + client_eph + server_pub),
        second_hash(prologue, client_eph, server_pub, server_eph) == sha256(
            prologue + client_eph + server_pub + server_eph,
        ),
{
    crate::protocol::law_transcript_concatenation(prologue, client_eph, server_pub, server_eph);
}

/// The handshake keys: the key that seals the client's handshake message is
/// the client-write HKDF output of the static Diffie-Hellman secret salted
/// with the first hash; the key that seals the server's acknowledgement is
/// the server-write HKDF output of the ephemeral secret salted with the
/// second hash; the transport keys are the client-write and server-write
/// HKDF outputs of `DH_static || DH_ephem` salted with the second hash.
pub proof fn law_handshake_key_schedule(dh_static: Seq<u8>, dh_ephem: Seq<u8>, h: Seq<u8>)
    ensures
        init_key(dh_static, h) == crate::crypto::primitives::hkdf_sha256_okm32(h, dh_static, seq![0x6eu8, 0x6fu8, 0x69u8, 0x73u8, 0x65u8, 0x2du8, 0x74u8, 0x75u8, 0x6eu8, 0x6eu8, 0x65u8, 0x6cu8, 0x2du8, 0x63u8, 0x6cu8, 0x69u8, 0x65u8, 0x6eu8, 0x74u8, 0x2du8, 0x77u8, 0x72u8, 0x69u8, 0x74u8, 0x65u8, 0x2du8, 0x6bu8, 0x65u8, 0x79u8, 0x2du8, 0x76u8, 0x31u8]),
        resp_key(dh_ephem, h) == crate::crypto::primitives::hkdf_sha256_okm32(h, dh_ephem, seq![0x6eu8, 0x6fu8, 0x69u8, 0x73u8, 0x65u8, 0x2du8, 0x74u8, 0x75u8, 0x6eu8, 0x6eu8, 0x65u8, 0x6cu8, 0x2du8, 0x73u8, 0x65u8, 0x72u8, 0x76u8, 0x65u8, 0x72u8, 0x2du8, 0x77u8, 0x72u8, 0x69u8, 0x74u8, 0x65u8, 0x2du8, 0x6bu8, 0x65u8, 0x79u8, 0x2du8, 0x76u8, 0x31u8]),
        transport_keys(dh_static, dh_ephem, h).0 == crate::crypto::primitives::hkdf_sha256_okm32(
            h,
            dh_static + dh_ephem,
            seq![0x6eu8, 0x6fu8, 0x69u8, 0x73u8, 0x65u8, 0x2du8, 0x74u8, 0x75u8, 0x6eu8, 0x6eu8, 0x65u8, 0x6cu8, 0x2du8, 0x63u8, 0x6cu8, 0x69u8, 0x65u8, 0x6eu8, 0x74u8, 0x2du8, 0x77u8, 0x72u8, 0x69u8, 0x74u8, 0x65u8, 0x2du8, 0x6bu8, 0x65u8, 0x79u8, 0x2du8, 0x76u8, 0x31u8],
        ),
        transport_keys(dh_static, dh_ephem, h).1 == crate::crypto::primitives::hkdf_sha256_okm32(
            h,
            dh_static + dh_ephem,
            seq![0x6eu8, 0x6fu8, 0x69u8, 0x73u8, 0x65u8, 0x2du8, 0x74u8, 0x75u8, 0x6eu8, 0x6eu8, 0x65u8, 0x6cu8, 0x2du8, 0x73u8, 0x65u8, 0x72u8, 0x76u8, 0x65u8, 0x72u8, 0x2du8, 0x77u8, 0x72u8, 0x69u8, 0x74u8, 0x65u8, 0x2du8, 0x6bu8, 0x65u8, 0x79u8, 0x2du8, 0x76u8, 0x31u8],
        ),
{
    crate::crypto::law_session_key_labels(dh_static, h);
    crate::crypto::law_session_key_labels(dh_ephem, h);
    crate::crypto::law_session_key_labels(dh_static + dh_ephem, h);
}

/// The client's handshake message, in terms of the primitives: its ephemeral
/// public key `e_c`, then `HANDSHAKE_INIT_CLIENT` sealed at nonce 0 under the
/// client-write HKDF output of the static Diffie-Hellman secret, salted with
/// and authenticated by `h1 = SHA-256(prologue || e_c || S_s)`. The server
/// accepts a message exactly when, after the 32-byte key, the rest opens
/// under that key derived from its own static secret and its own prologue.
pub proof fn law_init_message(
    prologue: Seq<u8>,
    client_eph: Seq<u8>,
    server_private: Seq<u8>,
    server_pub: Seq<u8>,
    dh_static: Seq<u8>,
    payload: Seq<u8>,
)
    ensures
        ({
            let h1 = sha256(prologue + client_eph + server_pub);
            init_payload(prologue, client_eph, server_pub, dh_static) == client_eph
                + chacha20poly1305_seal(
                crate::crypto::primitives::hkdf_sha256_okm32(h1, dh_static, seq![0x6eu8, 0x6fu8, 0x69u8, 0x73u8, 0x65u8, 0x2du8, 0x74u8, 0x75u8, 0x6eu8, 0x6eu8, 0x65u8, 0x6cu8, 0x2du8, 0x63u8, 0x6cu8, 0x69u8, 0x65u8, 0x6eu8, 0x74u8, 0x2du8, 0x77u8, 0x72u8, 0x69u8, 0x74u8, 0x65u8, 0x2du8, 0x6bu8, 0x65u8, 0x79u8, 0x2du8, 0x76u8, 0x31u8]),
                nonce_bytes(0),
                h1,
                seq![0x48u8, 0x41u8, 0x4eu8, 0x44u8, 0x53u8, 0x48u8, 0x41u8, 0x4bu8, 0x45u8, 0x5fu8, 0x49u8, 0x4eu8, 0x49u8, 0x54u8, 0x5fu8, 0x43u8, 0x4cu8, 0x49u8, 0x45u8, 0x4eu8, 0x54u8],
            )
        }),
        ({
            let ce = payload.subrange(0, 32);
            let h1 = sha256(prologue + ce + server_pub);
            init_accepted(server_private, server_pub, prologue, MessageType::HandshakeInit, payload) == (
            payload.len() >= 48 && chacha20poly1305_open(
                crate::crypto::primitives::hkdf_sha256_okm32(
                    h1,
                    x25519_shared_secret(server_private, ce),
                    seq![0x6eu8, 0x6fu8, 0x69u8, 0x73u8, 0x65u8, 0x2du8, 0x74u8, 0x75u8, 0x6eu8, 0x6eu8, 0x65u8, 0x6cu8, 0x2du8, 0x63u8, 0x6cu8, 0x69u8, 0x65u8, 0x6eu8, 0x74u8, 0x2du8, 0x77u8, 0x72u8, 0x69u8, 0x74u8, 0x65u8, 0x2du8, 0x6bu8, 0x65u8, 0x79u8, 0x2du8, 0x76u8, 0x31u8],
                ),
                nonce_bytes(0),
                h1,
                payload.subrange(32, payload.len() as int),
            ) is Some)
        }),
{
    law_protocol_labels(Seq::empty());
    law_transcript_hashes(prologue, client_eph, server_pub, Seq::empty());
    law_handshake_key_schedule(dh_static, dh_static, sha256(prologue + client_eph + server_pub));
    let ce = payload.subrange(0, 32);
    law_transcript_hashes(prologue, ce, server_pub, Seq::empty());
    law_handshake_key_schedule(
        x25519_shared_secret(server_private, ce),
        x25519_shared_secret(server_private, ce),
        sha256(prologue + ce + server_pub),
    );
}

/// The server's answer to an accepted handshake `hs` with the ephemeral key
/// pair (`eph_secret`, `eph_public`), in terms of the primitives: with
/// `DH_ephem = X25519(eph_secret, e_c)` and
/// `h2 = SHA-256(prologue || e_c || S_s || e_s)`, the response is `e_s`
/// followed by `HANDSHAKE_COMPLETE_ACK` sealed at nonce 0 under the
/// server-write HKDF output of `DH_ephem` salted with `h2`, authenticated by
/// `h2`; the session receives with the client-write and sends with the
/// server-write HKDF output of `DH_static || DH_ephem` salted with `h2`, both
/// counters at 0.
pub proof fn law_response_message(hs: ServerHandshakeView, eph_secret: Seq<u8>, eph_public: Seq<u8>)
    ensures
        ({
            let dh_e = x25519_shared_secret(eph_secret, hs.client_ephemeral);
            let h2 = sha256(hs.prologue + hs.client_ephemeral + hs.server_public + eph_public);
            let (session, resp) = response_of(hs, eph_secret, eph_public);
            &&& resp == eph_public + chacha20poly1305_seal(
                crate::crypto::primitives::hkdf_sha256_okm32(h2, dh_e, seq![0x6eu8, 0x6fu8, 0x69u8, 0x73u8, 0x65u8, 0x2du8, 0x74u8, 0x75u8, 0x6eu8, 0x6eu8, 0x65u8, 0x6cu8, 0x2du8, 0x73u8, 0x65u8, 0x72u8, 0x76u8, 0x65u8, 0x72u8, 0x2du8, 0x77u8, 0x72u8, 0x69u8, 0x74u8, 0x65u8, 0x2du8, 0x6bu8, 0x65u8, 0x79u8, 0x2du8, 0x76u8, 0x31u8]),
                nonce_bytes(0),
                h2,
                seq![0x48u8, 0x41u8, 0x4eu8, 0x44u8, 0x53u8, 0x48u8, 0x41u8, 0x4bu8, 0x45u8, 0x5fu8, 0x43u8, 0x4fu8, 0x4du8, 0x50u8, 0x4cu8, 0x45u8, 0x54u8, 0x45u8, 0x5fu8, 0x41u8, 0x43u8, 0x4bu8],
            )
            &&& session.rx == (CipherView {
                key: crate::crypto::primitives::hkdf_sha256_okm32(h2, hs.dh_static + dh_e, seq![0x6eu8, 0x6fu8, 0x69u8, 0x73u8, 0x65u8, 0x2du8, 0x74u8, 0x75u8, 0x6eu8, 0x6eu8, 0x65u8, 0x6cu8, 0x2du8, 0x63u8, 0x6cu8, 0x69u8, 0x65u8, 0x6eu8, 0x74u8, 0x2du8, 0x77u8, 0x72u8, 0x69u8, 0x74u8, 0x65u8, 0x2du8, 0x6bu8, 0x65u8, 0x79u8, 0x2du8, 0x76u8, 0x31u8]),
                nonce: 0,
            })
            &&& session.tx == (CipherView {
                key: crate::crypto::primitives::hkdf_sha256_okm32(h2, hs.dh_static + dh_e, seq![0x6eu8, 0x6fu8, 0x69u8, 0x73u8, 0x65u8, 0x2du8, 0x74u8, 0x75u8, 0x6eu8, 0x6eu8, 0x65u8, 0x6cu8, 0x2du8, 0x73u8, 0x65u8, 0x72u8, 0x76u8, 0x65u8, 0x72u8, 0x2du8, 0x77u8, 0x72u8, 0x69u8, 0x74u8, 0x65u8, 0x2du8, 0x6bu8, 0x65u8, 0x79u8, 0x2du8, 0x76u8, 0x31u8]),
                nonce: 0,
            })
        }),
{
    let dh_e = x25519_shared_secret(eph_secret, hs.client_ephemeral);
    law_protocol_labels(Seq::empty());
    law_transcript_hashes(hs.prologue, hs.client_ephemeral, hs.server_public, eph_public);
    let h2 = sha256(hs.prologue + hs.client_ephemeral + hs.server_public + eph_public);
    law_handshake_key_schedule(hs.dh_static, dh_e, h2);
}

/// The server's answer to a heartbeat: when a heartbeat frame passes the
/// replay filter, carries the next receiving nonce and opens under the
/// receiving key with the `heartbeat` label, and the sending counter can
/// move on, the server replies with a heartbeat frame numbered with its
/// sending nonce whose payload is `PONG` sealed under the sending key with
/// the `heartbeat` label.
pub proof fn law_heartbeat_answered_with_pong(
    s: ServerSessionView,
    t: ServerSessionView,
    nonce: u64,
    payload: Seq<u8>,
    r: Result<ServerAction, TunnelError>,
)
    requires
        transport_step(s, t, MessageType::Heartbeat, nonce, payload, r),
        !s.replay.seen(nonce),
        nonce == s.rx.nonce,
        s.rx.nonce < u64::MAX,
        s.tx.nonce < u64::MAX,
        chacha20poly1305_open(s.rx.key, nonce_bytes(nonce), seq![0x68u8, 0x65u8, 0x61u8, 0x72u8, 0x74u8, 0x62u8, 0x65u8, 0x61u8, 0x74u8], payload) is Some,
    ensures
        r matches Ok(ServerAction::Reply(f)) && f.msg_type == MessageType::Heartbeat && f.nonce
            == s.tx.nonce && f.payload@ == chacha20poly1305_seal(
            s.tx.key,
            nonce_bytes(s.tx.nonce),
            seq![0x68u8, 0x65u8, 0x61u8, 0x72u8, 0x74u8, 0x62u8, 0x65u8, 0x61u8, 0x74u8],
            seq![0x50u8, 0x4fu8, 0x4eu8, 0x47u8],
        ),
        t.tx == (CipherView { key: s.tx.key, nonce: (s.tx.nonce + 1) as u64 }),
{
    law_protocol_labels(Seq::empty());
    assert(aead_len_ok(pong_plaintext().len()));
}

/// Data frames go both ways under the `tunnel-data` label: when a data frame
/// passes the replay filter and carries the next receiving nonce, the server
/// refuses it unless it opens under the receiving key with that label, and
/// when it opens to `p` and the answer fits, the reply is a data frame whose
/// payload is the echo of `p` sealed under the sending key with the same
/// label.
pub proof fn law_data_frames_use_data_label(
    s: ServerSessionView,
    t: ServerSessionView,
    nonce: u64,
    payload: Seq<u8>,
    r: Result<ServerAction, TunnelError>,
)
    requires
        transport_step(s, t, MessageType::DataPayload, nonce, payload, r),
        !s.replay.seen(nonce),
        nonce == s.rx.nonce,
    ensures
        chacha20poly1305_open(s.rx.key, nonce_bytes(nonce), seq![0x74u8, 0x75u8, 0x6eu8, 0x6eu8, 0x65u8, 0x6cu8, 0x2du8, 0x64u8, 0x61u8, 0x74u8, 0x61u8], payload) is None ==> crypto_error(
            r,
            decrypt_failed_text(),
        ),
        chacha20poly1305_open(s.rx.key, nonce_bytes(nonce), seq![0x74u8, 0x75u8, 0x6eu8, 0x6eu8, 0x65u8, 0x6cu8, 0x2du8, 0x64u8, 0x61u8, 0x74u8, 0x61u8], payload) matches Some(p) ==> (
        s.rx.nonce < u64::MAX && s.tx.nonce < u64::MAX && aead_len_ok(echo_plaintext(p).len()) ==> (
        r matches Ok(ServerAction::Reply(f)) && f.msg_type == MessageType::DataPayload && f.nonce
            == s.tx.nonce && f.payload@ == chacha20poly1305_seal(
            s.tx.key,
            nonce_bytes(s.tx.nonce),
            seq![0x74u8, 0x75u8, 0x6eu8, 0x6eu8, 0x65u8, 0x6cu8, 0x2du8, 0x64u8, 0x61u8, 0x74u8, 0x61u8],
            echo_plaintext(p),
        ))),
{
    law_protocol_labels(Seq::empty());
}

} // verus!
