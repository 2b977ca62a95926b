//! Self-checks of the security properties: tampered ciphertexts are refused,
//! replayed sequence numbers are refused, nonces move forward.
use vstd::prelude::*;
use vstd::utf8::encode_utf8;

use crate::crypto::primitives::{chacha20poly1305_open, chacha20poly1305_seal};
use crate::crypto::{nonce_bytes, CipherState};
use crate::error::TunnelError;
use crate::protocol::ReplayFilter;

verus! {

/// `c` with its last byte inverted.
pub open spec fn flip_last(c: Seq<u8>) -> Seq<u8> {
    c.update(c.len() - 1, c.last() ^ 0xffu8)
}

/// The key of the tampering check.
pub open spec fn tamper_key() -> Seq<u8> {
    Seq::new(32, |i: int| 0x99u8)
}

/// The plaintext of the tampering check.
pub open spec fn tamper_plaintext() -> Seq<u8> {
    encode_utf8("Viktig bankoverforing: 1 000 000 NOK"@)
}

/// The associated data of the tampering check.
pub open spec fn tamper_aad() -> Seq<u8> {
    encode_utf8("aad-metadata"@)
}

/// Encrypts a message, inverts the last byte of the ciphertext and checks
/// that decryption refuses it.
pub fn test_packet_tampering_detection() -> (r: Result<(), TunnelError>)
    ensures
        r is Ok <==> chacha20poly1305_open(
            tamper_key(),
            nonce_bytes(0),
            tamper_aad(),
            flip_last(
                chacha20poly1305_seal(tamper_key(), nonce_bytes(0), tamper_aad(), tamper_plaintext()),
            ),
        ) is None,
{
    let key = [0x99u8; 32];
    assert(key@ =~= tamper_key());
    let mut sender = CipherState::new(key);
    let mut receiver = CipherState::new(key);
    let plaintext = "Viktig bankoverforing: 1 000 000 NOK".as_bytes();
    let aad = "aad-metadata".as_bytes();
    assert(plaintext@.len() == 36) by {
        reveal_strlit("Viktig bankoverforing: 1 000 000 NOK");
        vstd::utf8::is_ascii_chars_encode_utf8("Viktig bankoverforing: 1 000 000 NOK"@);
    }
    let mut ciphertext = sender.encrypt(plaintext, aad)?;
    let last_idx = ciphertext.len() - 1;
    let flipped = ciphertext[last_idx] ^ 0xFFu8;
    ciphertext.set(last_idx, flipped);
    let result = receiver.decrypt(ciphertext.as_slice(), aad, 0);
    if result.is_ok() {
        return Err(
            TunnelError::Crypto(
                String::from_str("KRITISK SIKKERHETSFEIL: Manipulert pakke ble akseptert!"),
            ),
        );
    }
    Ok(())
}

/// Accepts sequence number 100 once and checks that a second 100 is refused.
pub fn test_replay_attack_rejection() -> (r: Result<(), TunnelError>)
    ensures
        r is Ok,
{
    let mut filter = ReplayFilter::new();
    filter.validate_and_record(100)?;
    let replay_attempt = filter.validate_and_record(100);
    if replay_attempt.is_ok() {
        return Err(
            TunnelError::Crypto(
                String::from_str("KRITISK SIKKERHETSFEIL: Replay-pakke slapp gjennom filteret!"),
            ),
        );
    }
    Ok(())
}

/// Encrypts two messages and checks that the nonce counter reads 0, 1, 2.
pub fn test_nonce_progression() -> (r: Result<(), TunnelError>)
    ensures
        r is Ok,
{
    let key = [0x33u8; 32];
    let mut cipher = CipherState::new(key);
    assert(encode_utf8("msg 1"@).len() == 5 && encode_utf8("msg 2"@).len() == 5) by {
        reveal_strlit("msg 1");
        reveal_strlit("msg 2");
        vstd::utf8::is_ascii_chars_encode_utf8("msg 1"@);
        vstd::utf8::is_ascii_chars_encode_utf8("msg 2"@);
    }
    if cipher.current_nonce() != 0 {
        return Err(TunnelError::Crypto(String::from_str("Nonce-teller startet ikke på 0")));
    }
    let _ = cipher.encrypt("msg 1".as_bytes(), "".as_bytes())?;
    if cipher.current_nonce() != 1 {
        return Err(TunnelError::Crypto(String::from_str("Nonce-teller økte ikke til 1")));
    }
    let _ = cipher.encrypt("msg 2".as_bytes(), "".as_bytes())?;
    if cipher.current_nonce() != 2 {
        return Err(TunnelError::Crypto(String::from_str("Nonce-teller økte ikke til 2")));
    }
    Ok(())
}

} // verus!
