//! The length-prefixed wire frame:
//! `[4 bytes: body length, big-endian] [1 byte: message type]
//! [8 bytes: nonce, big-endian] [payload]`.
use vstd::prelude::*;

use super::{type_from_byte, MessageType, MAX_FRAME_SIZE};
use crate::bytes::{
    lemma_u32_be_bytes_of_read, lemma_u64_be_bytes_of_read, lemma_u32_be_roundtrip, lemma_u64_be_roundtrip, u32_be_bytes, u32_from_be, u32_read_be,
    u32_to_be, u64_be_bytes, u64_from_be, u64_read_be, u64_to_be,
};
use crate::error::TunnelError;
use crate::text::{decimal, push_decimal};

verus! {

/// A protocol message as it travels over the wire.
#[derive(Debug, Clone, PartialEq, Eq)]
pub struct WireFrame {
    pub msg_type: MessageType,
    pub nonce: u64,
    pub payload: Vec<u8>,
}

/// The value of the 4-byte length field of a frame with a payload of
/// `payload_len` bytes: 9 (type and nonce) plus the payload, cut to 32 bits.
pub open spec fn length_field(payload_len: nat) -> u32 {
    (9 + payload_len) as u32
}

/// The wire bytes of a frame.
pub open spec fn frame_bytes(msg_type: MessageType, nonce: u64, payload: Seq<u8>) -> Seq<u8> {
    u32_be_bytes(length_field(payload.len())) + seq![msg_type.byte()] + u64_be_bytes(nonce)
        + payload
}

/// The 9 header bytes of a frame (type byte and nonce).
pub open spec fn header_of(msg_type: MessageType, nonce: u64) -> Seq<u8> {
    seq![msg_type.byte()] + u64_be_bytes(nonce)
}

/// Why bytes are refused as a frame.
pub enum FrameFault {
    /// Fewer than 13 bytes in all.
    BufferTooShort(nat),
    /// The length field does not match the number of bytes after it.
    LengthMismatch(nat, nat),
    /// The frame body is shorter than its 9 header bytes.
    BodyTooShort(nat),
    /// The frame body is larger than `MAX_FRAME_SIZE`.
    Oversized(nat),
    /// The message-type byte is unknown.
    UnknownType(u8),
}

/// The message of the error that reports `fault`.
pub open spec fn fault_text(fault: FrameFault) -> Seq<char> {
    match fault {
        FrameFault::BufferTooShort(n) => "Mottok for kort buffer for WireFrame: "@ + decimal(n)
            + " bytes (krever minst 13 bytes)"@,
        FrameFault::LengthMismatch(declared, actual) => "Uoverensstemmelse i rammelengde: spesifisert "@
            + decimal(declared) + ", faktisk bufferlengde "@ + decimal(actual),
        FrameFault::BodyTooShort(n) => "Mottok for kort wire-ramme: "@ + decimal(n) + " bytes"@,
        FrameFault::Oversized(n) => "Mottok overdimensjonert pakke ("@ + decimal(n)
            + "), avviser for å forhindre DoS"@,
        FrameFault::UnknownType(b) => super::unknown_type_text(b),
    }
}

/// What a frame body (type byte, nonce, payload) decodes to.
pub open spec fn parse_body(body: Seq<u8>) -> Result<(MessageType, u64, Seq<u8>), FrameFault> {
    if body.len() < 9 {
        Err(FrameFault::BodyTooShort(body.len()))
    } else if body.len() > MAX_FRAME_SIZE {
        Err(FrameFault::Oversized(body.len()))
    } else {
        match type_from_byte(body[0]) {
            None => Err(FrameFault::UnknownType(body[0])),
            Some(t) => Ok((t, u64_from_be(body.subrange(1, 9)), body.subrange(9, body.len() as int))),
        }
    }
}

/// What a complete buffer (length prefix included) decodes to.
pub open spec fn parse_frame(bytes: Seq<u8>) -> Result<(MessageType, u64, Seq<u8>), FrameFault> {
    if bytes.len() < 13 {
        Err(FrameFault::BufferTooShort(bytes.len()))
    } else {
        let declared = u32_from_be(bytes.subrange(0, 4));
        if declared != bytes.len() - 4 {
            Err(FrameFault::LengthMismatch(declared as nat, (bytes.len() - 4) as nat))
        } else {
            parse_body(bytes.subrange(4, bytes.len() as int))
        }
    }
}

/// Whether `r` reports `fault` as a frame error.
pub open spec fn reports_fault<T>(r: Result<T, TunnelError>, fault: FrameFault) -> bool {
    r matches Err(TunnelError::Frame(m)) && m@ == fault_text(fault)
}

/// Whether `r` holds a frame with these fields.
pub open spec fn holds_frame(
    r: Result<WireFrame, TunnelError>,
    msg_type: MessageType,
    nonce: u64,
    payload: Seq<u8>,
) -> bool {
    r matches Ok(f) && f.msg_type == msg_type && f.nonce == nonce && f.payload@ == payload
}

/// Decoding the wire bytes of a frame gives back its type, nonce and payload,
/// for every frame whose body fits within `MAX_FRAME_SIZE`.
pub proof fn law_frame_roundtrip(msg_type: MessageType, nonce: u64, payload: Seq<u8>)
    requires
        9 + payload.len() <= MAX_FRAME_SIZE,
    ensures
        parse_frame(frame_bytes(msg_type, nonce, payload)) == Ok::<
            (MessageType, u64, Seq<u8>),
            FrameFault,
        >((msg_type, nonce, payload)),
{
    let b = frame_bytes(msg_type, nonce, payload);
    let len = length_field(payload.len());
    assert(len == 9 + payload.len());
    assert(b.subrange(0, 4) =~= u32_be_bytes(len));
    lemma_u32_be_roundtrip(len);
    let body = b.subrange(4, b.len() as int);
    assert(body =~= seq![msg_type.byte()] + u64_be_bytes(nonce) + payload);
    assert(body.subrange(1, 9) =~= u64_be_bytes(nonce));
    lemma_u64_be_roundtrip(nonce);
    assert(body.subrange(9, body.len() as int) =~= payload);
    super::lemma_type_byte_roundtrip(msg_type);
}

/// A buffer that decodes to a frame is exactly the wire bytes of that frame:
/// every accepted buffer has a single encoding.
pub proof fn law_frame_canonical(bytes: Seq<u8>)
    requires
        parse_frame(bytes) is Ok,
    ensures
        parse_frame(bytes) matches Ok((t, n, p)) && frame_bytes(t, n, p) == bytes,
{
    let declared = u32_from_be(bytes.subrange(0, 4));
    let body = bytes.subrange(4, bytes.len() as int);
    let t = type_from_byte(body[0])->0;
    let n = u64_from_be(body.subrange(1, 9));
    let p = body.subrange(9, body.len() as int);
    assert(length_field(p.len()) == declared);
    lemma_u32_be_bytes_of_read(bytes.subrange(0, 4));
    lemma_u64_be_bytes_of_read(body.subrange(1, 9));
    assert(t.byte() == body[0]);
    assert(frame_bytes(t, n, p) =~= bytes);
}

impl WireFrame {
    /// The wire bytes of this frame.
    pub open spec fn wire_bytes(&self) -> Seq<u8> {
        frame_bytes(self.msg_type, self.nonce, self.payload@)
    }

    /// A frame of the given type, nonce and payload.
    pub fn new(msg_type: MessageType, nonce: u64, payload: Vec<u8>) -> (r: Self)
        ensures
            r.msg_type == msg_type,
            r.nonce == nonce,
            r.payload@ == payload@,
    {
        WireFrame { msg_type, nonce, payload }
    }

    /// A `HandshakeInit` frame.
    pub fn handshake_init(nonce: u64, payload: Vec<u8>) -> (r: Self)
        ensures
            r.msg_type == MessageType::HandshakeInit,
            r.nonce == nonce,
            r.payload@ == payload@,
    {
        Self::new(MessageType::HandshakeInit, nonce, payload)
    }

    /// A `HandshakeResp` frame.
    pub fn handshake_resp(nonce: u64, payload: Vec<u8>) -> (r: Self)
        ensures
            r.msg_type == MessageType::HandshakeResp,
            r.nonce == nonce,
            r.payload@ == payload@,
    {
        Self::new(MessageType::HandshakeResp, nonce, payload)
    }

    /// A `DataPayload` frame.
    pub fn data(nonce: u64, payload: Vec<u8>) -> (r: Self)
        ensures
            r.msg_type == MessageType::DataPayload,
            r.nonce == nonce,
            r.payload@ == payload@,
    {
        Self::new(MessageType::DataPayload, nonce, payload)
    }

    /// A `DataPayload` frame whose payload is copied from a slice.
    pub fn data_from_slice(nonce: u64, payload: &[u8]) -> (r: Self)
        ensures
            r.msg_type == MessageType::DataPayload,
            r.nonce == nonce,
            r.payload@ == payload@,
    {
        Self::new(MessageType::DataPayload, nonce, vstd::slice::slice_to_vec(payload))
    }

    /// A `Heartbeat` frame.
    pub fn heartbeat(nonce: u64, payload: Vec<u8>) -> (r: Self)
        ensures
            r.msg_type == MessageType::Heartbeat,
            r.nonce == nonce,
            r.payload@ == payload@,
    {
        Self::new(MessageType::Heartbeat, nonce, payload)
    }

    /// A `Close` frame with an empty payload.
    pub fn close(nonce: u64) -> (r: Self)
        ensures
            r.msg_type == MessageType::Close,
            r.nonce == nonce,
            r.payload@ == Seq::<u8>::empty(),
    {
        Self::new(MessageType::Close, nonce, Vec::new())
    }

    /// Whether this frame belongs to the handshake.
    pub fn is_handshake(&self) -> (r: bool)
        ensures
            r == (self.msg_type is HandshakeInit || self.msg_type is HandshakeResp),
    {
        self.msg_type.is_handshake()
    }

    /// Whether this frame is a heartbeat.
    pub fn is_heartbeat(&self) -> (r: bool)
        ensures
            r == (self.msg_type is Heartbeat),
    {
        self.msg_type.is_heartbeat()
    }

    /// Whether this frame carries encrypted data.
    pub fn is_data(&self) -> (r: bool)
        ensures
            r == (self.msg_type is DataPayload),
    {
        self.msg_type.is_data()
    }

    /// Whether this frame closes the session.
    pub fn is_close(&self) -> (r: bool)
        ensures
            r == (self.msg_type is Close),
    {
        self.msg_type.is_close()
    }

    /// The payload length in bytes.
    pub fn payload_len(&self) -> (r: usize)
        ensures
            r == self.payload@.len(),
    {
        self.payload.len()
    }

    /// Whether the payload is empty.
    pub fn is_empty(&self) -> (r: bool)
        ensures
            r == (self.payload@.len() == 0),
    {
        self.payload.len() == 0
    }

    /// The message type.
    pub fn msg_type(&self) -> (r: MessageType)
        ensures
            r == self.msg_type,
    {
        self.msg_type
    }

    /// The sequence number / nonce.
    pub fn nonce(&self) -> (r: u64)
        ensures
            r == self.nonce,
    {
        self.nonce
    }

    /// The payload, borrowed.
    pub fn payload_slice(&self) -> (r: &[u8])
        ensures
            r@ == self.payload@,
    {
        self.payload.as_slice()
    }

    /// The 9 header bytes: type byte, then the nonce big-endian.
    pub fn header_bytes(&self) -> (r: [u8; 9])
        ensures
            r@ == header_of(self.msg_type, self.nonce),
    {
        let n = u64_to_be(self.nonce);
        let r: [u8; 9] = [self.msg_type.as_u8(), n[0], n[1], n[2], n[3], n[4], n[5], n[6], n[7]];
        assert(r@ =~= header_of(self.msg_type, self.nonce));
        r
    }

    /// A one-line summary: type, nonce and payload size.
    pub fn summary(&self) -> (r: String)
        ensures
            r@ == "WireFrame(type="@ + self.msg_type.name() + ", nonce="@ + decimal(self.nonce as nat)
                + ", payload_len="@ + decimal(self.payload@.len()) + "B)"@,
    {
        let mut r = String::from_str("WireFrame(type=");
        let t = self.msg_type.to_string();
        r.append(t.as_str());
        r.append(", nonce=");
        push_decimal(&mut r, self.nonce);
        r.append(", payload_len=");
        push_decimal(&mut r, self.payload.len() as u64);
        r.append("B)");
        r
    }

    /// Appends the wire bytes of this frame to `buffer`.
    pub fn serialize_into(&self, buffer: &mut Vec<u8>)
        ensures
            final(buffer)@ == old(buffer)@ + self.wire_bytes(),
    {
        let payload_len = self.payload.len();
        let total_frame_len = (payload_len as u128 + 9) as u32;
        assert(total_frame_len == length_field(self.payload@.len()));
        let len_bytes = u32_to_be(total_frame_len);
        let header = self.header_bytes();
        crate::bytes::push_all(buffer, &len_bytes);
        crate::bytes::push_all(buffer, &header);
        crate::bytes::push_all(buffer, self.payload.as_slice());
        assert(final(buffer)@ =~= old(buffer)@ + self.wire_bytes());
    }

    /// The wire bytes of this frame in a new buffer.
    pub fn serialize(&self) -> (r: Vec<u8>)
        ensures
            r@ == self.wire_bytes(),
    {
        let mut buffer = Vec::new();
        self.serialize_into(&mut buffer);
        buffer
    }

    /// Decodes a frame from a complete buffer, length prefix included.
    pub fn from_bytes(bytes: &[u8]) -> (r: Result<Self, TunnelError>)
        ensures
            parse_frame(bytes@) matches Ok((t, n, p)) ==> holds_frame(r, t, n, p),
            parse_frame(bytes@) matches Err(fault) ==> reports_fault(r, fault),
    {
        if bytes.len() < 13 {
            let mut m = String::from_str("Mottok for kort buffer for WireFrame: ");
            push_decimal(&mut m, bytes.len() as u64);
            m.append(" bytes (krever minst 13 bytes)");
            return Err(TunnelError::Frame(m));
        }
        let frame_len = u32_read_be(bytes, 0) as usize;
        if frame_len != bytes.len() - 4 {
            let mut m = String::from_str("Uoverensstemmelse i rammelengde: spesifisert ");
            push_decimal(&mut m, frame_len as u64);
            m.append(", faktisk bufferlengde ");
            push_decimal(&mut m, (bytes.len() - 4) as u64);
            return Err(TunnelError::Frame(m));
        }
        let body = vstd::slice::slice_subrange(bytes, 4, bytes.len());
        Self::from_body(body)
    }

    /// Decodes a frame from the bytes that follow its length prefix.
    pub fn from_body(body: &[u8]) -> (r: Result<Self, TunnelError>)
        ensures
            parse_body(body@) matches Ok((t, n, p)) ==> holds_frame(r, t, n, p),
            parse_body(body@) matches Err(fault) ==> reports_fault(r, fault),
    {
        let frame_len = body.len();
        if frame_len < 9 {
            let mut m = String::from_str("Mottok for kort wire-ramme: ");
            push_decimal(&mut m, frame_len as u64);
            m.append(" bytes");
            return Err(TunnelError::Frame(m));
        }
        if frame_len > MAX_FRAME_SIZE {
            let mut m = String::from_str("Mottok overdimensjonert pakke (");
            push_decimal(&mut m, frame_len as u64);
            m.append("), avviser for å forhindre DoS");
            return Err(TunnelError::Frame(m));
        }
        let msg_type = match MessageType::try_from(body[0]) {
            Ok(t) => t,
            Err(e) => {
                return Err(e);
            },
        };
        let nonce = u64_read_be(body, 1);
        let payload = vstd::slice::slice_to_vec(vstd::slice::slice_subrange(body, 9, frame_len));
        Ok(WireFrame { msg_type, nonce, payload })
    }

    /// Decodes a frame from a complete buffer, as `from_bytes` does.
    pub fn try_from(bytes: &[u8]) -> (r: Result<Self, TunnelError>)
        ensures
            parse_frame(bytes@) matches Ok((t, n, p)) ==> holds_frame(r, t, n, p),
            parse_frame(bytes@) matches Err(fault) ==> reports_fault(r, fault),
    {
        Self::from_bytes(bytes)
    }

    /// Checks the body length announced by a 4-byte length prefix: it must
    /// cover the 9 header bytes and stay within `MAX_FRAME_SIZE`.
    pub fn body_len_from_prefix(prefix: [u8; 4]) -> (r: Result<usize, TunnelError>)
        ensures
            ({
                let n = u32_from_be(prefix@) as nat;
                &&& n < 9 ==> reports_fault(r, FrameFault::BodyTooShort(n))
                &&& n > MAX_FRAME_SIZE ==> reports_fault(r, FrameFault::Oversized(n))
                &&& 9 <= n <= MAX_FRAME_SIZE ==> r == Ok::<usize, TunnelError>(n as usize)
            }),
    {
        let frame_len = u32_read_be(&prefix, 0) as usize;
        assert(prefix@.subrange(0, 4) =~= prefix@);
        if frame_len < 9 {
            let mut m = String::from_str("Mottok for kort wire-ramme: ");
            push_decimal(&mut m, frame_len as u64);
            m.append(" bytes");
            return Err(TunnelError::Frame(m));
        }
        if frame_len > MAX_FRAME_SIZE {
            let mut m = String::from_str("Mottok overdimensjonert pakke (");
            push_decimal(&mut m, frame_len as u64);
            m.append("), avviser for å forhindre DoS");
            return Err(TunnelError::Frame(m));
        }
        Ok(frame_len)
    }
}

} // verus!
