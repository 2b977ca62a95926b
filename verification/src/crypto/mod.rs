//! Key agreement (X25519), key derivation (HKDF-SHA256) and authenticated
//! encryption (ChaCha20-Poly1305) with a monotonic nonce.
use vstd::prelude::*;
use vstd::utf8::encode_utf8;

pub mod primitives;

use crate::bytes::{u64_le_bytes, u64_to_be};
use crate::encoding::{hex_decode, hex_decoded, hex_valid, trim_str, trimmed};
use crate::error::{hex_error_debug_text, TunnelError};
use crate::text::{decimal, hex_lower, hex_string, push_decimal};
use primitives::{
    aead_decrypt, aead_encrypt, aead_len_ok, chacha20poly1305_open, chacha20poly1305_seal,
    hkdf_sha256_expand32, hkdf_sha256_okm32, random_secret_bytes, x25519_diffie_hellman,
    x25519_public_from_secret, x25519_public_key, x25519_shared_secret,
};

verus! {

/// Length of a symmetric session key (32 bytes = 256 bits).
pub const KEY_LEN: usize = 32;

/// Length of a ChaCha20-Poly1305 nonce (12 bytes = 96 bits).
pub const NONCE_LEN: usize = 12;

/// Length of a Poly1305 authentication tag (16 bytes = 128 bits).
pub const TAG_LEN: usize = 16;

/// A static X25519 key pair.
#[derive(Clone, PartialEq, Eq)]
pub struct KeyPair {
    pub private_key: [u8; 32],
    pub public_key: [u8; 32],
}

impl KeyPair {
    /// Whether the public key is the X25519 public key of the private key.
    pub open spec fn is_consistent(&self) -> bool {
        self.public_key@ == x25519_public_key(self.private_key@)
    }

    /// A fresh key pair from the operating system's random source.
    pub fn generate() -> (r: Self)
        ensures
            r.is_consistent(),
    {
        let secret = random_secret_bytes();
        Self::from_private_bytes(secret)
    }

    /// The key pair of an existing 32-byte private key.
    pub fn from_private_bytes(bytes: [u8; 32]) -> (r: Self)
        ensures
            r.private_key == bytes,
            r.is_consistent(),
    {
        let public_key = x25519_public_from_secret(&bytes);
        KeyPair { private_key: bytes, public_key }
    }

    /// The key pair of a private key given as hexadecimal text; surrounding
    /// white space is ignored.
    pub fn from_private_hex(hex_str: &str) -> (r: Result<Self, TunnelError>)
        ensures
            parse_key_hex(hex_str@) matches Ok(k) ==> (r matches Ok(kp) && kp.private_key@ == k
                && kp.is_consistent()),
            parse_key_hex(hex_str@) matches Err(e) ==> (r matches Err(err) && key_hex_error_is(
                e,
                true,
                err,
            )),
    {
        match parse_key_hex_text(hex_str, true) {
            Ok(bytes) => Ok(Self::from_private_bytes(bytes)),
            Err(e) => Err(e),
        }
    }

    /// A 32-byte public key given as hexadecimal text; surrounding white space
    /// is ignored.
    pub fn parse_public_key_hex(hex_str: &str) -> (r: Result<[u8; 32], TunnelError>)
        ensures
            parse_key_hex(hex_str@) matches Ok(k) ==> (r matches Ok(a) && a@ == k),
            parse_key_hex(hex_str@) matches Err(e) ==> (r matches Err(err) && key_hex_error_is(
                e,
                false,
                err,
            )),
    {
        parse_key_hex_text(hex_str, false)
    }

    /// The public key as lower-case hexadecimal text.
    pub fn public_key_hex(&self) -> (r: String)
        ensures
            r@ == hex_lower(self.public_key@),
    {
        hex_string(&self.public_key)
    }

    /// The private key as lower-case hexadecimal text.
    pub fn private_key_hex(&self) -> (r: String)
        ensures
            r@ == hex_lower(self.private_key@),
    {
        hex_string(&self.private_key)
    }

    /// A debug rendering that shows the public key and hides the private key.
    pub fn debug_string(&self) -> (r: String)
        ensures
            r@ == "KeyPair { public_key: \""@ + hex_lower(self.public_key@)
                + "\", private_key: \"[REDACTED]\" }"@,
    {
        let mut r = String::from_str("KeyPair { public_key: \"");
        let h = self.public_key_hex();
        r.append(h.as_str());
        r.append("\", private_key: \"[REDACTED]\" }");
        r
    }
}

impl Default for KeyPair {
    /// A freshly generated key pair.
    fn default() -> (r: Self)
        ensures
            r.is_consistent(),
    {
        Self::generate()
    }
}

/// Why a hexadecimal key text is refused.
pub enum KeyHexError {
    /// The text (trimmed) is not an even number of hexadecimal digits.
    NotHex,
    /// The text stands for this many bytes instead of 32.
    WrongLength(nat),
}

/// The 32-byte key that `text` stands for, after trimming white space, or why
/// there is none.
pub open spec fn parse_key_hex(text: Seq<char>) -> Result<Seq<u8>, KeyHexError> {
    let digits = encode_utf8(trimmed(text));
    if !hex_valid(digits) {
        Err(KeyHexError::NotHex)
    } else if hex_decoded(digits).len() != 32 {
        Err(KeyHexError::WrongLength(hex_decoded(digits).len()))
    } else {
        Ok(hex_decoded(digits))
    }
}

/// The start of the message for a key text that is not hexadecimal; the
/// decoder's description of the fault follows it.
pub open spec fn bad_key_hex_prefix(private: bool) -> Seq<char> {
    if private {
        "Ugyldig hex-enkoding for privat nøkkel: "@
    } else {
        "Ugyldig hex-enkoding for offentlig nøkkel: "@
    }
}

/// The message for a key text that stands for `n` bytes instead of 32.
pub open spec fn wrong_key_length_text(private: bool, n: nat) -> Seq<char> {
    (if private {
        "Privat"@
    } else {
        "Offentlig"@
    }) + " nøkkel må være nøyaktig 32 bytes (64 hex-tegn), mottok "@ + decimal(n)
}

/// The library error that reports the refusal `e` of a private (`private`)
/// or public key text.
pub open spec fn key_hex_error_is(e: KeyHexError, private: bool, err: TunnelError) -> bool {
    match e {
        KeyHexError::NotHex => err matches TunnelError::Other(m) && m@.len() >= bad_key_hex_prefix(
            private,
        ).len() && m@.subrange(0, bad_key_hex_prefix(private).len() as int) == bad_key_hex_prefix(
            private,
        ),
        KeyHexError::WrongLength(n) => err matches TunnelError::Other(m) && m@
            == wrong_key_length_text(private, n),
    }
}

/// A 32-byte key given as hexadecimal text, surrounding white space ignored;
/// the error messages name a private (`private`) or a public key.
fn parse_key_hex_text(hex_str: &str, private: bool) -> (r: Result<[u8; 32], TunnelError>)
    ensures
        parse_key_hex(hex_str@) matches Ok(k) ==> (r matches Ok(a) && a@ == k),
        parse_key_hex(hex_str@) matches Err(e) ==> (r matches Err(err) && key_hex_error_is(
            e,
            private,
            err,
        )),
{
    let trimmed_str = trim_str(hex_str);
    match hex_decode(trimmed_str) {
        Err(e) => {
            let mut m = if private {
                String::from_str("Ugyldig hex-enkoding for privat nøkkel: ")
            } else {
                String::from_str("Ugyldig hex-enkoding for offentlig nøkkel: ")
            };
            let ghost pre = m@;
            let t = hex_error_debug_text(&e);
            m.append(t.as_str());
            assert(m@.subrange(0, pre.len() as int) =~= pre);
            Err(TunnelError::Other(m))
        },
        Ok(bytes) => {
            if bytes.len() != KEY_LEN {
                let mut m = if private {
                    String::from_str("Privat")
                } else {
                    String::from_str("Offentlig")
                };
                m.append(" nøkkel må være nøyaktig 32 bytes (64 hex-tegn), mottok ");
                push_decimal(&mut m, bytes.len() as u64);
                Err(TunnelError::Other(m))
            } else {
                let mut arr = [0u8; 32];
                let mut i: usize = 0;
                while i < 32
                    invariant
                        i <= 32,
                        bytes@.len() == 32,
                        forall|j: int| 0 <= j < i ==> arr@[j] == bytes@[j],
                    decreases 32 - i,
                {
                    arr[i] = bytes[i];
                    i = i + 1;
                }
                assert(arr@ =~= bytes@);
                Ok(arr)
            }
        },
    }
}

/// The 12-byte nonce of counter value `counter`: its little-endian bytes
/// followed by four zero bytes.
pub open spec fn nonce_bytes(counter: u64) -> Seq<u8> {
    u64_le_bytes(counter) + seq![0u8, 0u8, 0u8, 0u8]
}

/// The nonce of a counter is its eight bytes, least significant first,
/// followed by four zero bytes; different counters give different nonces, so
/// a counter that only moves forward never repeats a nonce.
pub proof fn law_nonce_bytes(a: u64, b: u64)
    ensures
        nonce_bytes(a) == seq![
            a as u8,
            (a >> 8u64) as u8,
            (a >> 16u64) as u8,
            (a >> 24u64) as u8,
            (a >> 32u64) as u8,
            (a >> 40u64) as u8,
            (a >> 48u64) as u8,
            (a >> 56u64) as u8,
            0u8,
            0u8,
            0u8,
            0u8,
        ],
        a != b ==> nonce_bytes(a) != nonce_bytes(b),
{
    assert(nonce_bytes(a) =~= seq![
        a as u8,
        (a >> 8u64) as u8,
        (a >> 16u64) as u8,
        (a >> 24u64) as u8,
        (a >> 32u64) as u8,
        (a >> 40u64) as u8,
        (a >> 48u64) as u8,
        (a >> 56u64) as u8,
        0u8,
        0u8,
        0u8,
        0u8,
    ]);
    if a != b && nonce_bytes(a) == nonce_bytes(b) {
        crate::bytes::lemma_u64_be_roundtrip(a);
        crate::bytes::lemma_u64_be_roundtrip(b);
        assert(crate::bytes::u64_be_bytes(a) =~= nonce_bytes(a).subrange(0, 8).reverse());
        assert(crate::bytes::u64_be_bytes(b) =~= nonce_bytes(b).subrange(0, 8).reverse());
    }
}

/// The abstract state of a `CipherState`: its key and the next nonce counter.
pub struct CipherView {
    pub key: Seq<u8>,
    pub nonce: u64,
}

/// Stateful AEAD context: a key and a nonce counter that moves forward by one
/// with each message, so that no nonce is used twice.
pub struct CipherState {
    key: [u8; 32],
    nonce: u64,
}

impl View for CipherState {
    type V = CipherView;

    closed spec fn view(&self) -> CipherView {
        CipherView { key: self.key@, nonce: self.nonce }
    }
}

/// The message of the error for a refused AEAD encryption.
pub open spec fn encrypt_failed_text() -> Seq<char> {
    "Krypteringsfeil (AEAD): Error"@
}

/// The message of the error for a nonce counter that cannot move on.
pub open spec fn nonce_overflow_text() -> Seq<char> {
    "Nonce overflow! Sesjonen må reforhandles."@
}

/// The message of the error for a ciphertext whose tag does not authenticate.
pub open spec fn decrypt_failed_text() -> Seq<char> {
    "AEAD-dekryptering feilet: Ugyldig MAC-tag eller manipulert pakke!"@
}

impl CipherState {
    /// A context for `key` whose first nonce counter is 0.
    pub fn new(key: [u8; 32]) -> (r: Self)
        ensures
            r@.key == key@,
            r@.nonce == 0,
    {
        CipherState { key, nonce: 0 }
    }

    /// The nonce counter of the next message.
    pub fn current_nonce(&self) -> (r: u64)
        ensures
            r == self@.nonce,
    {
        self.nonce
    }

    /// The 12-byte nonce of a counter value.
    fn build_nonce(counter: u64) -> (r: [u8; 12])
        ensures
            r@ == nonce_bytes(counter),
    {
        let be = u64_to_be(counter);
        let r: [u8; 12] = [be[7], be[6], be[5], be[4], be[3], be[2], be[1], be[0], 0, 0, 0, 0];
        assert(r@ =~= nonce_bytes(counter));
        r
    }

    /// Encrypts `plaintext` with associated data `associated_data` under the
    /// current nonce, then moves the nonce on by one.
    pub fn encrypt(&mut self, plaintext: &[u8], associated_data: &[u8]) -> (r: Result<Vec<u8>, TunnelError>)
        ensures
            final(self)@.key == old(self)@.key,
            aead_len_ok(plaintext@.len()) && old(self)@.nonce < u64::MAX ==> (r matches Ok(c)
                && c@ == chacha20poly1305_seal(
                old(self)@.key,
                nonce_bytes(old(self)@.nonce),
                associated_data@,
                plaintext@,
            ) && final(self)@.nonce == old(self)@.nonce + 1),
            r matches Ok(c) ==> c@.len() == plaintext@.len() + 16,
            !aead_len_ok(plaintext@.len()) ==> (r matches Err(TunnelError::Crypto(m)) && m@
                == encrypt_failed_text() && final(self)@ == old(self)@),
            aead_len_ok(plaintext@.len()) && old(self)@.nonce == u64::MAX ==> (r matches Err(
                TunnelError::Crypto(m),
            ) && m@ == nonce_overflow_text() && final(self)@ == old(self)@),
    {
        let nonce_arr = Self::build_nonce(self.nonce);
        let ciphertext = match aead_encrypt(&self.key, &nonce_arr, associated_data, plaintext) {
            Some(c) => c,
            None => {
                return Err(TunnelError::Crypto(String::from_str("Krypteringsfeil (AEAD): Error")));
            },
        };
        match self.nonce.checked_add(1) {
            Some(n) => {
                self.nonce = n;
                Ok(ciphertext)
            },
            None => Err(
                TunnelError::Crypto(String::from_str("Nonce overflow! Sesjonen må reforhandles.")),
            ),
        }
    }

    /// Decrypts `ciphertext` with associated data `associated_data`, provided
    /// that `expected_nonce` is the current nonce counter; on success the
    /// nonce moves on by one. A counter that cannot move on is an error,
    /// never a wrap.
    pub fn decrypt(&mut self, ciphertext: &[u8], associated_data: &[u8], expected_nonce: u64) -> (r:
        Result<Vec<u8>, TunnelError>)
        ensures
            final(self)@.key == old(self)@.key,
            expected_nonce != old(self)@.nonce ==> (r matches Err(TunnelError::Crypto(m)) && m@
                == nonce_order_text(old(self)@.nonce, expected_nonce) && final(self)@ == old(self)@),
            expected_nonce == old(self)@.nonce ==> match chacha20poly1305_open(
                old(self)@.key,
                nonce_bytes(expected_nonce),
                associated_data@,
                ciphertext@,
            ) {
                Some(p) => if old(self)@.nonce < u64::MAX {
                    r matches Ok(v) && v@ == p && final(self)@.nonce == old(self)@.nonce + 1
                } else {
                    r matches Err(TunnelError::Crypto(m)) && m@ == nonce_overflow_text()
                        && final(self)@ == old(self)@
                },
                None => r matches Err(TunnelError::Crypto(m)) && m@ == decrypt_failed_text()
                    && final(self)@ == old(self)@,
            },
            forall|p: Seq<u8>|
                expected_nonce == old(self)@.nonce && old(self)@.nonce < u64::MAX && aead_len_ok(p.len())
                    && #[trigger] chacha20poly1305_seal(
                    old(self)@.key,
                    nonce_bytes(expected_nonce),
                    associated_data@,
                    p,
                ) == ciphertext@ ==> (r matches Ok(v) && v@ == p),
    {
        if expected_nonce != self.nonce {
            let mut m = String::from_str("Ugyldig nonce rekkefølge! Forventet ");
            crate::text::push_decimal(&mut m, self.nonce);
            m.append(", mottok ");
            crate::text::push_decimal(&mut m, expected_nonce);
            return Err(TunnelError::Crypto(m));
        }
        let nonce_arr = Self::build_nonce(expected_nonce);
        match aead_decrypt(&self.key, &nonce_arr, associated_data, ciphertext) {
            Some(plaintext) => match self.nonce.checked_add(1) {
                Some(n) => {
                    self.nonce = n;
                    Ok(plaintext)
                },
                None => Err(
                    TunnelError::Crypto(String::from_str("Nonce overflow! Sesjonen må reforhandles.")),
                ),
            },
            None => Err(
                TunnelError::Crypto(
                    String::from_str(
                        "AEAD-dekryptering feilet: Ugyldig MAC-tag eller manipulert pakke!",
                    ),
                ),
            ),
        }
    }
}

/// The message of the error for a nonce that is not the expected one.
pub open spec fn nonce_order_text(expected: u64, received: u64) -> Seq<char> {
    "Ugyldig nonce rekkefølge! Forventet "@ + crate::text::decimal(expected as nat) + ", mottok "@
        + crate::text::decimal(received as nat)
}

/// The HKDF context string of the client-to-server key.
pub open spec fn client_key_info() -> Seq<u8> {
    encode_utf8("noise-tunnel-client-write-key-v1"@)
}

/// The HKDF context string of the server-to-client key.
pub open spec fn server_key_info() -> Seq<u8> {
    encode_utf8("noise-tunnel-server-write-key-v1"@)
}

/// The session keys derived from `secret` with salt `hash`:
/// (client-to-server key, server-to-client key).
pub open spec fn session_keys(secret: Seq<u8>, hash: Seq<u8>) -> (Seq<u8>, Seq<u8>) {
    (hkdf_sha256_okm32(hash, secret, client_key_info()), hkdf_sha256_okm32(hash, secret, server_key_info()))
}

/// The two session keys of `secret` and salt `hash` are the HKDF-SHA256
/// outputs with the context strings `noise-tunnel-client-write-key-v1`
/// (client-to-server key) and `noise-tunnel-server-write-key-v1`
/// (server-to-client key), written here as their bytes.
pub proof fn law_session_key_labels(secret: Seq<u8>, hash: Seq<u8>)
    ensures
        session_keys(secret, hash).0 == hkdf_sha256_okm32(
            hash,
            secret,
            seq![0x6eu8, 0x6fu8, 0x69u8, 0x73u8, 0x65u8, 0x2du8, 0x74u8, 0x75u8, 0x6eu8, 0x6eu8, 0x65u8, 0x6cu8, 0x2du8, 0x63u8, 0x6cu8, 0x69u8, 0x65u8, 0x6eu8, 0x74u8, 0x2du8, 0x77u8, 0x72u8, 0x69u8, 0x74u8, 0x65u8, 0x2du8, 0x6bu8, 0x65u8, 0x79u8, 0x2du8, 0x76u8, 0x31u8],
        ),
        session_keys(secret, hash).1 == hkdf_sha256_okm32(
            hash,
            secret,
            seq![0x6eu8, 0x6fu8, 0x69u8, 0x73u8, 0x65u8, 0x2du8, 0x74u8, 0x75u8, 0x6eu8, 0x6eu8, 0x65u8, 0x6cu8, 0x2du8, 0x73u8, 0x65u8, 0x72u8, 0x76u8, 0x65u8, 0x72u8, 0x2du8, 0x77u8, 0x72u8, 0x69u8, 0x74u8, 0x65u8, 0x2du8, 0x6bu8, 0x65u8, 0x79u8, 0x2du8, 0x76u8, 0x31u8],
        ),
{
    reveal_strlit("noise-tunnel-client-write-key-v1");
    reveal_strlit("noise-tunnel-server-write-key-v1");
    crate::text::lemma_ascii_encoding(
        "noise-tunnel-client-write-key-v1"@,
        seq![0x6eu8, 0x6fu8, 0x69u8, 0x73u8, 0x65u8, 0x2du8, 0x74u8, 0x75u8, 0x6eu8, 0x6eu8, 0x65u8, 0x6cu8, 0x2du8, 0x63u8, 0x6cu8, 0x69u8, 0x65u8, 0x6eu8, 0x74u8, 0x2du8, 0x77u8, 0x72u8, 0x69u8, 0x74u8, 0x65u8, 0x2du8, 0x6bu8, 0x65u8, 0x79u8, 0x2du8, 0x76u8, 0x31u8],
    );
    crate::text::lemma_ascii_encoding(
        "noise-tunnel-server-write-key-v1"@,
        seq![0x6eu8, 0x6fu8, 0x69u8, 0x73u8, 0x65u8, 0x2du8, 0x74u8, 0x75u8, 0x6eu8, 0x6eu8, 0x65u8, 0x6cu8, 0x2du8, 0x73u8, 0x65u8, 0x72u8, 0x76u8, 0x65u8, 0x72u8, 0x2du8, 0x77u8, 0x72u8, 0x69u8, 0x74u8, 0x65u8, 0x2du8, 0x6bu8, 0x65u8, 0x79u8, 0x2du8, 0x76u8, 0x31u8],
    );
}

/// Splits a shared secret into two session keys with HKDF-SHA256, salted
/// with the handshake hash. Returns (client-to-server key, server-to-client key).
pub fn derive_session_keys(shared_secret: &[u8], handshake_hash: &[u8]) -> (r: Result<
    ([u8; 32], [u8; 32]),
    TunnelError,
>)
    ensures
        r is Ok,
        r matches Ok((c, s)) ==> (c@, s@) == session_keys(shared_secret@, handshake_hash@),
{
    let client_info = "noise-tunnel-client-write-key-v1".as_bytes();
    let server_info = "noise-tunnel-server-write-key-v1".as_bytes();
    let client_write_key = match hkdf_sha256_expand32(handshake_hash, shared_secret, client_info) {
        Ok(k) => k,
        Err(_) => {
            return Err(TunnelError::Crypto(String::from_str("HKDF expand for client key feilet")));
        },
    };
    let server_write_key = match hkdf_sha256_expand32(handshake_hash, shared_secret, server_info) {
        Ok(k) => k,
        Err(_) => {
            return Err(TunnelError::Crypto(String::from_str("HKDF expand for server key feilet")));
        },
    };
    Ok((client_write_key, server_write_key))
}

/// X25519 Diffie-Hellman of a secret key and the peer's public key. Both
/// sides agree: when the peer's key is the public key of the secret `b`, the
/// peer's own computation with `b` and this side's public key gives the same
/// shared secret.
pub fn diffie_hellman(secret_bytes: &[u8; 32], public_bytes: &[u8; 32]) -> (r: [u8; 32])
    ensures
        r@ == x25519_shared_secret(secret_bytes@, public_bytes@),
        forall|b: Seq<u8>|
            b.len() == 32 && public_bytes@ == x25519_public_key(b) ==> #[trigger] x25519_shared_secret(
                b,
                x25519_public_key(secret_bytes@),
            ) == r@,
{
    x25519_diffie_hellman(secret_bytes, public_bytes)
}

/// A one-session X25519 key pair, generated fresh for each handshake.
pub struct EphemeralKeyPair {
    secret: [u8; 32],
    pub public_key: [u8; 32],
}

/// The abstract state of an `EphemeralKeyPair`: its secret and public key bytes.
pub struct EphemeralView {
    pub secret: Seq<u8>,
    pub public_key: Seq<u8>,
}

impl View for EphemeralKeyPair {
    type V = EphemeralView;

    closed spec fn view(&self) -> EphemeralView {
        EphemeralView { secret: self.secret@, public_key: self.public_key@ }
    }
}

impl EphemeralKeyPair {
    /// The secret and the public key of an ephemeral key pair are 32 bytes
    /// each.
    pub proof fn lemma_lengths(&self)
        ensures
            self@.secret.len() == 32,
            self@.public_key.len() == 32,
    {
    }

    /// A fresh key pair from the operating system's random source.
    pub fn generate() -> (r: Self)
        ensures
            r@.public_key == x25519_public_key(r@.secret),
            r@.secret.len() == 32,
            r@.public_key.len() == 32,
    {
        Self::from_secret_bytes(random_secret_bytes())
    }

    /// The key pair of the given secret bytes.
    pub fn from_secret_bytes(secret: [u8; 32]) -> (r: Self)
        ensures
            r@.secret == secret@,
            r@.public_key == x25519_public_key(r@.secret),
            r@.public_key.len() == 32,
    {
        let public_key = x25519_public_from_secret(&secret);
        EphemeralKeyPair { secret, public_key }
    }

    /// The public key.
    pub fn public_key(&self) -> (r: [u8; 32])
        ensures
            r@ == self@.public_key,
    {
        self.public_key
    }

    /// X25519 Diffie-Hellman of this secret and the peer's public key. Both
    /// sides agree: a peer whose public key is that of the secret `b` gets
    /// the same shared secret from `b` and the public key of this secret.
    pub fn diffie_hellman(&self, peer_public: &[u8; 32]) -> (r: [u8; 32])
        ensures
            r@ == x25519_shared_secret(self@.secret, peer_public@),
            forall|b: Seq<u8>|
                b.len() == 32 && peer_public@ == x25519_public_key(b) ==> #[trigger] x25519_shared_secret(
                    b,
                    x25519_public_key(self@.secret),
                ) == r@,
    {
        diffie_hellman(&self.secret, peer_public)
    }
}

/// A consistent key pair is determined by its private key: two of them with
/// the same private key are the same. With `law_key_hex_roundtrip`, the key
/// pair that `from_private_hex` reads from `private_key_hex` of a consistent
/// key pair is that key pair.
pub proof fn law_keypair_determined_by_private_key(a: KeyPair, b: KeyPair)
    requires
        a.is_consistent(),
        b.is_consistent(),
        a.private_key == b.private_key,
    ensures
        a == b,
{
    broadcast use vstd::array::axiom_array_ext_equal;

    assert(a.public_key =~= b.public_key) by {
        assert forall|i: int| 0 <= i < 32 implies a.public_key[i] == b.public_key[i] by {
            assert(a.public_key@[i] == b.public_key@[i]);
        }
    }
}

/// The code of a lower-case hexadecimal digit character is an ASCII
/// hexadecimal digit that stands for the digit's value, and is not white
/// space.
proof fn lemma_hex_digit_code(d: nat)
    requires
        d < 16,
    ensures
        '\0' <= crate::text::hex_digit_char(d) <= '\u{7f}',
        crate::encoding::is_hex_digit(crate::text::hex_digit_char(d) as u8),
        crate::encoding::hex_value(crate::text::hex_digit_char(d) as u8) == d,
        !crate::encoding::is_white_space(crate::text::hex_digit_char(d)),
{
}

/// Reading back the hexadecimal text of a 32-byte key gives the key: a key
/// survives `private_key_hex` / `public_key_hex` followed by
/// `from_private_hex` / `parse_public_key_hex`.
pub proof fn law_key_hex_roundtrip(k: Seq<u8>)
    requires
        k.len() == 32,
    ensures
        parse_key_hex(hex_lower(k)) == Ok::<Seq<u8>, KeyHexError>(k),
{
    let s = hex_lower(k);
    crate::text::lemma_hex_lower_len(k);
    assert forall|j: int| 0 <= j < s.len() implies '\0' <= #[trigger] s[j] <= '\u{7f}'
        && crate::encoding::is_hex_digit(s[j] as u8) && !crate::encoding::is_white_space(s[j]) by {
        let i = j / 2;
        crate::text::lemma_hex_lower_index(k, i);
        lemma_hex_digit_code((k[i] / 16) as nat);
        lemma_hex_digit_code((k[i] % 16) as nat);
    }
    assert(crate::encoding::trim_start(s) == s);
    assert(crate::encoding::trim_end(s) == s);
    assert(vstd::utf8::is_ascii_chars(s));
    vstd::utf8::is_ascii_chars_encode_utf8(s);
    let b = encode_utf8(s);
    assert(hex_valid(b));
    assert forall|i: int| 0 <= i < 32 implies #[trigger] hex_decoded(b)[i] == k[i] by {
        crate::text::lemma_hex_lower_index(k, i);
        lemma_hex_digit_code((k[i] / 16) as nat);
        lemma_hex_digit_code((k[i] % 16) as nat);
        assert(b[2 * i] == s[2 * i] as u8);
        assert(b[2 * i + 1] == s[2 * i + 1] as u8);
    }
    assert(hex_decoded(b) =~= k);
}

} // verus!
