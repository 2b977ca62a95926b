//! The cryptographic primitives this library builds on, each a thin call into
//! its outside crate. What each call returns is named by an uninterpreted
//! spec function; the contracts below are trusted, not proved.
use vstd::prelude::*;
use chacha20poly1305::aead::{Aead, KeyInit, Payload};
use chacha20poly1305::{ChaCha20Poly1305, Key, Nonce};
use hkdf::Hkdf;
use rand::rngs::OsRng;
use sha2::{Digest, Sha256};
use x25519_dalek::{PublicKey as X25519PublicKey, StaticSecret};

verus! {

/// The SHA-256 digest of `data`.
pub uninterp spec fn sha256(data: Seq<u8>) -> Seq<u8>;

/// The first 32 bytes of HKDF-SHA256 output keying material for `salt`,
/// input keying material `ikm` and context `info`.
pub uninterp spec fn hkdf_sha256_okm32(salt: Seq<u8>, ikm: Seq<u8>, info: Seq<u8>) -> Seq<u8>;

/// The X25519 public key of the secret scalar bytes `secret`.
pub uninterp spec fn x25519_public_key(secret: Seq<u8>) -> Seq<u8>;

/// The X25519 shared secret of the secret scalar bytes `secret` and the peer's
/// public key `public`.
pub uninterp spec fn x25519_shared_secret(secret: Seq<u8>, public: Seq<u8>) -> Seq<u8>;

/// ChaCha20-Poly1305 ciphertext (with the 16-byte tag appended) of `plaintext`
/// under `key`, `nonce` and associated data `aad`.
pub uninterp spec fn chacha20poly1305_seal(
    key: Seq<u8>,
    nonce: Seq<u8>,
    aad: Seq<u8>,
    plaintext: Seq<u8>,
) -> Seq<u8>;

/// ChaCha20-Poly1305 decryption of `ciphertext` (tag appended) under `key`,
/// `nonce` and `aad`: `None` when the tag does not authenticate.
pub uninterp spec fn chacha20poly1305_open(
    key: Seq<u8>,
    nonce: Seq<u8>,
    aad: Seq<u8>,
    ciphertext: Seq<u8>,
) -> Option<Seq<u8>>;

/// The largest number of 64-byte blocks ChaCha20-Poly1305 processes in one
/// message is below this bound (`u32::MAX`).
pub open spec fn aead_max_blocks() -> nat {
    0xffff_ffff
}

/// Whether ChaCha20-Poly1305 accepts a message of `len` bytes.
pub open spec fn aead_len_ok(len: nat) -> bool {
    len / 64 < aead_max_blocks()
}

/// Calls `Sha256::digest` (sha2): the result is the SHA-256 digest of `data`,
/// 32 bytes long.
#[verifier::external_body]
pub(crate) fn sha256_digest(data: &[u8]) -> (r: [u8; 32])
    ensures
        r@ == sha256(data@),
{
    Sha256::digest(data).into()
}

/// Calls `Hkdf::<Sha256>::new(Some(salt), ikm)` and then `expand(info, ..)`
/// into 32 bytes (hkdf). The crate refuses only outputs longer than 255 hash
/// lengths, so a 32-byte output is always produced; it is named
/// `hkdf_sha256_okm32` of the three arguments.
#[verifier::external_body]
pub(crate) fn hkdf_sha256_expand32(salt: &[u8], ikm: &[u8], info: &[u8]) -> (r: Result<[u8; 32], hkdf::InvalidLength>)
    ensures
        r is Ok,
        r is Ok ==> r->Ok_0@ == hkdf_sha256_okm32(salt@, ikm@, info@),
{
    let hk = Hkdf::<Sha256>::new(Some(salt), ikm);
    let mut okm = [0u8; 32];
    match hk.expand(info, &mut okm) {
        Ok(()) => Ok(okm),
        Err(e) => Err(e),
    }
}

/// Declares `hkdf::InvalidLength`, the error of HKDF expansion.
#[verifier::external_type_specification]
#[verifier::external_body]
pub struct ExInvalidLength(hkdf::InvalidLength);

/// Calls `StaticSecret::random_from_rng(OsRng)` (x25519-dalek, rand) and
/// returns its bytes: 32 bytes drawn from the operating system's random
/// source. Nothing is stated of their value.
#[verifier::external_body]
pub(crate) fn random_secret_bytes() -> (r: [u8; 32]) {
    StaticSecret::random_from_rng(OsRng).to_bytes()
}

/// Calls `PublicKey::from(&StaticSecret::from(secret))` (x25519-dalek): the
/// result is the X25519 public key of `secret`.
#[verifier::external_body]
pub(crate) fn x25519_public_from_secret(secret: &[u8; 32]) -> (r: [u8; 32])
    ensures
        r@ == x25519_public_key(secret@),
{
    *X25519PublicKey::from(&StaticSecret::from(*secret)).as_bytes()
}

/// Calls `StaticSecret::diffie_hellman` (x25519-dalek) on `secret` and the
/// peer key `public`: the result is their X25519 shared secret. As the
/// crate documents, key agreement holds: when `public` is the public key of
/// a 32-byte secret `b`, the peer computing with `b` and the public key of
/// `secret` gets the same bytes.
#[verifier::external_body]
pub(crate) fn x25519_diffie_hellman(secret: &[u8; 32], public: &[u8; 32]) -> (r: [u8; 32])
    ensures
        r@ == x25519_shared_secret(secret@, public@),
        forall|b: Seq<u8>|
            b.len() == 32 && public@ == x25519_public_key(b) ==> #[trigger] x25519_shared_secret(
                b,
                x25519_public_key(secret@),
            ) == r@,
{
    *StaticSecret::from(*secret).diffie_hellman(&X25519PublicKey::from(*public)).as_bytes()
}

/// Calls `ChaCha20Poly1305::encrypt` (chacha20poly1305). The crate refuses a
/// message of 64 * `u32::MAX` bytes or more and otherwise returns the
/// ciphertext with its 16-byte tag appended.
#[verifier::external_body]
pub(crate) fn aead_encrypt(key: &[u8; 32], nonce: &[u8; 12], aad: &[u8], plaintext: &[u8]) -> (r: Option<Vec<u8>>)
    ensures
        r is Some <==> aead_len_ok(plaintext@.len()),
        r is Some ==> r->0@ == chacha20poly1305_seal(key@, nonce@, aad@, plaintext@),
        r is Some ==> r->0@.len() == plaintext@.len() + 16,
{
    ChaCha20Poly1305::new(Key::from_slice(key))
        .encrypt(Nonce::from_slice(nonce), Payload { msg: plaintext, aad })
        .ok()
}

/// Calls `ChaCha20Poly1305::decrypt` (chacha20poly1305). A ciphertext shorter
/// than the 16-byte tag is refused; a plaintext comes back 16 bytes shorter
/// than the ciphertext. As for every AEAD scheme, decrypting what encryption
/// produced under the same key, nonce and associated data gives back the
/// plaintext. That forged ciphertexts are refused is not stated.
#[verifier::external_body]
pub(crate) fn aead_decrypt(key: &[u8; 32], nonce: &[u8; 12], aad: &[u8], ciphertext: &[u8]) -> (r: Option<Vec<u8>>)
    ensures
        r is Some ==> chacha20poly1305_open(key@, nonce@, aad@, ciphertext@) == Some(r->0@),
        r is None ==> chacha20poly1305_open(key@, nonce@, aad@, ciphertext@) is None,
        ciphertext@.len() < 16 ==> r is None,
        r is Some ==> r->0@.len() + 16 == ciphertext@.len(),
        forall|p: Seq<u8>|
            aead_len_ok(p.len()) && #[trigger] chacha20poly1305_seal(key@, nonce@, aad@, p)
                == ciphertext@ ==> (r is Some && r->0@ == p),
{
    ChaCha20Poly1305::new(Key::from_slice(key))
        .decrypt(Nonce::from_slice(nonce), Payload { msg: ciphertext, aad })
        .ok()
}

} // verus!
