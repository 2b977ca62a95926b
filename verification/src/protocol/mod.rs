//! Protocol framework: message types, wire frames, replay protection and the
//! handshake transcript hash.
use vstd::prelude::*;

pub mod frame;
pub mod replay;

pub use frame::WireFrame;
pub use replay::ReplayFilter;

use crate::crypto::primitives::{sha256, sha256_digest};
use crate::bytes::push_all;
use crate::error::TunnelError;
use crate::text::{hex_byte, push_hex_byte};

verus! {

/// Protocol name, used as the default prologue that binds a handshake.
pub const PROTOCOL_NAME: [u8; 35] = [
    0x4eu8, 0x6fu8, 0x69u8, 0x73u8, 0x65u8, 0x5fu8, 0x4eu8, 0x4bu8, 0x5fu8, 0x32u8, 0x35u8, 0x35u8,
    0x31u8, 0x39u8, 0x5fu8, 0x43u8, 0x68u8, 0x61u8, 0x43u8, 0x68u8, 0x61u8, 0x50u8, 0x6fu8, 0x6cu8,
    0x79u8, 0x5fu8, 0x53u8, 0x48u8, 0x41u8, 0x32u8, 0x35u8, 0x36u8, 0x5fu8, 0x76u8, 0x31u8,
];

/// Largest frame body accepted (64 KiB), against memory exhaustion.
pub const MAX_FRAME_SIZE: usize = 65536;

/// Default sliding-window size of the replay filter (128 sequence numbers).
pub const REPLAY_WINDOW_SIZE: u64 = 128;

/// Kinds of protocol messages.
#[derive(Debug, PartialEq, Eq, Clone, Copy, Structural)]
pub enum MessageType {
    HandshakeInit,
    HandshakeResp,
    DataPayload,
    Heartbeat,
    Close,
}

impl MessageType {
    /// The byte that stands for this message type on the wire.
    pub open spec fn byte(self) -> u8 {
        match self {
            MessageType::HandshakeInit => 0x01,
            MessageType::HandshakeResp => 0x02,
            MessageType::DataPayload => 0x03,
            MessageType::Heartbeat => 0x04,
            MessageType::Close => 0x05,
        }
    }

    /// The name of this message type.
    pub open spec fn name(self) -> Seq<char> {
        match self {
            MessageType::HandshakeInit => "HandshakeInit"@,
            MessageType::HandshakeResp => "HandshakeResp"@,
            MessageType::DataPayload => "DataPayload"@,
            MessageType::Heartbeat => "Heartbeat"@,
            MessageType::Close => "Close"@,
        }
    }

    /// The byte value of this message type.
    pub fn as_u8(&self) -> (r: u8)
        ensures
            r == self.byte(),
    {
        match self {
            MessageType::HandshakeInit => 0x01,
            MessageType::HandshakeResp => 0x02,
            MessageType::DataPayload => 0x03,
            MessageType::Heartbeat => 0x04,
            MessageType::Close => 0x05,
        }
    }

    /// Whether this type belongs to the handshake phase.
    pub fn is_handshake(&self) -> (r: bool)
        ensures
            r == (*self is HandshakeInit || *self is HandshakeResp),
    {
        match self {
            MessageType::HandshakeInit | MessageType::HandshakeResp => true,
            _ => false,
        }
    }

    /// Whether this type carries encrypted user data.
    pub fn is_data(&self) -> (r: bool)
        ensures
            r == (*self is DataPayload),
    {
        *self == MessageType::DataPayload
    }

    /// Whether this type is a heartbeat (ping / pong).
    pub fn is_heartbeat(&self) -> (r: bool)
        ensures
            r == (*self is Heartbeat),
    {
        *self == MessageType::Heartbeat
    }

    /// Whether this type closes the session.
    pub fn is_close(&self) -> (r: bool)
        ensures
            r == (*self is Close),
    {
        *self == MessageType::Close
    }

    /// The name of this message type as text.
    pub fn to_string(&self) -> (r: String)
        ensures
            r@ == self.name(),
    {
        match self {
            MessageType::HandshakeInit => String::from_str("HandshakeInit"),
            MessageType::HandshakeResp => String::from_str("HandshakeResp"),
            MessageType::DataPayload => String::from_str("DataPayload"),
            MessageType::Heartbeat => String::from_str("Heartbeat"),
            MessageType::Close => String::from_str("Close"),
        }
    }

    /// The message type a wire byte stands for, or an error for an unknown byte.
    pub fn try_from(val: u8) -> (r: Result<MessageType, TunnelError>)
        ensures
            type_from_byte(val) matches Some(t) ==> r == Ok::<MessageType, TunnelError>(t),
            type_from_byte(val) is None ==> (r matches Err(TunnelError::Frame(m)) && m@
                == unknown_type_text(val)),
    {
        match val {
            0x01 => Ok(MessageType::HandshakeInit),
            0x02 => Ok(MessageType::HandshakeResp),
            0x03 => Ok(MessageType::DataPayload),
            0x04 => Ok(MessageType::Heartbeat),
            0x05 => Ok(MessageType::Close),
            other => {
                let mut m = String::from_str("Ukjent meldingstype mottatt over wire: 0x");
                push_hex_byte(&mut m, other);
                Err(TunnelError::Frame(m))
            },
        }
    }
}

/// The message type that wire byte `b` stands for, if any.
pub open spec fn type_from_byte(b: u8) -> Option<MessageType> {
    if b == 0x01 {
        Some(MessageType::HandshakeInit)
    } else if b == 0x02 {
        Some(MessageType::HandshakeResp)
    } else if b == 0x03 {
        Some(MessageType::DataPayload)
    } else if b == 0x04 {
        Some(MessageType::Heartbeat)
    } else if b == 0x05 {
        Some(MessageType::Close)
    } else {
        None
    }
}

/// The message of the error for an unknown message-type byte.
pub open spec fn unknown_type_text(b: u8) -> Seq<char> {
    "Ukjent meldingstype mottatt over wire: 0x"@ + hex_byte(b)
}

/// Every message type is read back from its own byte.
pub proof fn lemma_type_byte_roundtrip(t: MessageType)
    ensures
        type_from_byte(t.byte()) == Some(t),
{
}

/// The bytes that the handshake transcript hash covers: prologue, client
/// ephemeral key, server static key and, once known, the server ephemeral key.
pub open spec fn transcript(
    prologue: Seq<u8>,
    client_ephemeral: Seq<u8>,
    server_public: Seq<u8>,
    server_ephemeral: Option<Seq<u8>>,
) -> Seq<u8> {
    prologue + client_ephemeral + server_public + match server_ephemeral {
        Some(se) => se,
        None => Seq::empty(),
    }
}

/// The transcript is the concatenation `prologue || e_c || S_s`, followed by
/// `e_s` once the server's ephemeral key is known.
pub proof fn law_transcript_concatenation(
    prologue: Seq<u8>,
    client_ephemeral: Seq<u8>,
    server_public: Seq<u8>,
    server_ephemeral: Seq<u8>,
)
    ensures
        transcript(prologue, client_ephemeral, server_public, None) == prologue + client_ephemeral
            + server_public,
        transcript(prologue, client_ephemeral, server_public, Some(server_ephemeral)) == prologue
            + client_ephemeral + server_public + server_ephemeral,
{
    assert(prologue + client_ephemeral + server_public + Seq::<u8>::empty() =~= prologue
        + client_ephemeral + server_public);
}

/// The handshake transcript hash: SHA-256 of the transcript bytes.
pub fn hash_handshake_state(
    prologue: &[u8],
    client_ephemeral: &[u8; 32],
    server_public: &[u8; 32],
    server_ephemeral: Option<&[u8; 32]>,
) -> (r: [u8; 32])
    ensures
        r@ == sha256(
            transcript(
                prologue@,
                client_ephemeral@,
                server_public@,
                match server_ephemeral {
                    Some(se) => Some(se@),
                    None => None,
                },
            ),
        ),
{
    let mut data: Vec<u8> = Vec::new();
    push_all(&mut data, prologue);
    push_all(&mut data, client_ephemeral);
    push_all(&mut data, server_public);
    match server_ephemeral {
        Some(se) => {
            push_all(&mut data, se);
        },
        None => {},
    }
    let ghost se_view = match server_ephemeral {
        Some(se) => Some(se@),
        None => None::<Seq<u8>>,
    };
    assert(data@ =~= transcript(prologue@, client_ephemeral@, server_public@, se_view));
    sha256_digest(data.as_slice())
}

} // verus!
