//! Noise-style end-to-end encrypted session tunnel: an X25519 handshake in
//! the NK pattern, HKDF-SHA256 key splitting, ChaCha20-Poly1305 transport with
//! monotonic nonces, length-prefixed wire frames and a sliding-window replay
//! filter.
use vstd::prelude::*;

pub mod bytes;
pub mod crypto;
pub mod encoding;
pub mod error;
pub mod handshake;
pub mod protocol;
pub mod server;
pub mod stats;
pub mod text;
pub mod verify;

pub use crypto::{CipherState, EphemeralKeyPair, KeyPair, KEY_LEN, NONCE_LEN, TAG_LEN};
pub use error::{TunnelError, TunnelResult};
pub use handshake::{ClientHandshake, ClientSession, ServerAction, ServerHandshake, ServerSession};
pub use protocol::{
    hash_handshake_state, MessageType, ReplayFilter, WireFrame, MAX_FRAME_SIZE, PROTOCOL_NAME,
    REPLAY_WINDOW_SIZE,
};
pub use stats::SessionMetrics;

verus! {
} // verus!
