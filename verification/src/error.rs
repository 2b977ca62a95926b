//! Error type of the tunnel library.
use vstd::prelude::*;
use crate::text::{decimal, push_decimal};

verus! {

/// Declares `std::io::Error` so that an error variant can carry it.
#[verifier::external_type_specification]
#[verifier::external_body]
pub struct ExIoError(std::io::Error);

/// Declares `hex::FromHexError`, the error of hexadecimal decoding.
#[verifier::external_type_specification]
#[verifier::external_body]
pub struct ExFromHexError(hex::FromHexError);

/// Declares `std::string::FromUtf8Error`, the error of UTF-8 decoding.
#[verifier::external_type_specification]
#[verifier::external_body]
pub struct ExFromUtf8Error(std::string::FromUtf8Error);

/// Domain errors of tunnel operations.
#[derive(Debug)]
pub enum TunnelError {
    Crypto(String),
    Handshake(String),
    Replay { seq: u64, reason: String },
    Frame(String),
    Io(std::io::Error),
    Timeout(String),
    CapacityExceeded(usize),
    HexDecode(hex::FromHexError),
    Utf8(std::string::FromUtf8Error),
    InvalidLength { expected: usize, actual: usize },
    Other(String),
}

/// Result type with `TunnelError` as its error.
pub type TunnelResult<T> = Result<T, TunnelError>;

/// The display text of `std::io::Error`.
#[verifier::external_body]
fn io_error_text(e: &std::io::Error) -> String {
    format!("{}", e)
}

/// The display text of `hex::FromHexError`.
#[verifier::external_body]
fn hex_error_text(e: &hex::FromHexError) -> String {
    format!("{}", e)
}

/// The debug text of `hex::FromHexError`.
#[verifier::external_body]
pub(crate) fn hex_error_debug_text(e: &hex::FromHexError) -> String {
    format!("{:?}", e)
}

/// The display text of `std::string::FromUtf8Error`.
#[verifier::external_body]
fn utf8_error_text(e: &std::string::FromUtf8Error) -> String {
    format!("{}", e)
}

/// The message of an error whose text is fully known to this library, if any.
pub open spec fn known_text(e: TunnelError) -> Option<Seq<char>> {
    match e {
        TunnelError::Crypto(s) => Some("Kryptografisk feil: "@ + s@),
        TunnelError::Handshake(s) => Some("Handshake-feil: "@ + s@),
        TunnelError::Replay { seq, reason } => Some(
            "Replay-angrep detektert for sekvensnummer "@ + decimal(seq as nat) + ": "@ + reason@,
        ),
        TunnelError::Frame(s) => Some("Protokoll-rammefeil: "@ + s@),
        TunnelError::Timeout(s) => Some("Operasjon timet ut: "@ + s@),
        TunnelError::CapacityExceeded(n) => Some(
            "Maksimal serverkapasitet nådd ("@ + decimal(n as nat) + " forbindelser)"@,
        ),
        TunnelError::InvalidLength { expected, actual } => Some(
            "Ugyldig datalengde: forventet "@ + decimal(expected as nat) + " bytes, mottok "@
                + decimal(actual as nat) + " bytes"@,
        ),
        TunnelError::Other(s) => Some("Generell feil: "@ + s@),
        _ => None,
    }
}

/// The fixed start of the message of an error that wraps an outside error.
pub open spec fn wrapped_prefix(e: TunnelError) -> Seq<char> {
    match e {
        TunnelError::Io(_) => "Nettverks- og I/O-feil: "@,
        TunnelError::HexDecode(_) => "Hex-dekodingsfeil: "@,
        _ => "Ugyldig UTF-8 data: "@,
    }
}

impl TunnelError {
    /// The human-readable message of this error.
    pub fn to_string(&self) -> (r: String)
        ensures
            known_text(*self) matches Some(t) ==> r@ == t,
            known_text(*self) is None ==> r@.len() >= wrapped_prefix(*self).len()
                && r@.subrange(0, wrapped_prefix(*self).len() as int) == wrapped_prefix(*self),
    {
        match self {
            TunnelError::Crypto(s) => {
                let mut r = String::from_str("Kryptografisk feil: ");
                r.append(s.as_str());
                r
            },
            TunnelError::Handshake(s) => {
                let mut r = String::from_str("Handshake-feil: ");
                r.append(s.as_str());
                r
            },
            TunnelError::Replay { seq, reason } => {
                let mut r = String::from_str("Replay-angrep detektert for sekvensnummer ");
                push_decimal(&mut r, *seq);
                r.append(": ");
                r.append(reason.as_str());
                r
            },
            TunnelError::Frame(s) => {
                let mut r = String::from_str("Protokoll-rammefeil: ");
                r.append(s.as_str());
                r
            },
            TunnelError::Io(e) => {
                let mut r = String::from_str("Nettverks- og I/O-feil: ");
                let t = io_error_text(e);
                r.append(t.as_str());
                r
            },
            TunnelError::Timeout(s) => {
                let mut r = String::from_str("Operasjon timet ut: ");
                r.append(s.as_str());
                r
            },
            TunnelError::CapacityExceeded(n) => {
                let mut r = String::from_str("Maksimal serverkapasitet nådd (");
                push_decimal(&mut r, *n as u64);
                r.append(" forbindelser)");
                r
            },
            TunnelError::HexDecode(e) => {
                let mut r = String::from_str("Hex-dekodingsfeil: ");
                let t = hex_error_text(e);
                r.append(t.as_str());
                r
            },
            TunnelError::Utf8(e) => {
                let mut r = String::from_str("Ugyldig UTF-8 data: ");
                let t = utf8_error_text(e);
                r.append(t.as_str());
                r
            },
            TunnelError::InvalidLength { expected, actual } => {
                let mut r = String::from_str("Ugyldig datalengde: forventet ");
                push_decimal(&mut r, *expected as u64);
                r.append(" bytes, mottok ");
                push_decimal(&mut r, *actual as u64);
                r.append(" bytes");
                r
            },
            TunnelError::Other(s) => {
                let mut r = String::from_str("Generell feil: ");
                r.append(s.as_str());
                r
            },
        }
    }
}

impl From<std::io::Error> for TunnelError {
    fn from(err: std::io::Error) -> (r: Self) {
        TunnelError::Io(err)
    }
}

impl vstd::std_specs::convert::FromSpecImpl<std::io::Error> for TunnelError {
    open spec fn obeys_from_spec() -> bool {
        true
    }

    open spec fn from_spec(v: std::io::Error) -> Self {
        TunnelError::Io(v)
    }
}

impl From<hex::FromHexError> for TunnelError {
    fn from(err: hex::FromHexError) -> (r: Self) {
        TunnelError::HexDecode(err)
    }
}

impl vstd::std_specs::convert::FromSpecImpl<hex::FromHexError> for TunnelError {
    open spec fn obeys_from_spec() -> bool {
        true
    }

    open spec fn from_spec(v: hex::FromHexError) -> Self {
        TunnelError::HexDecode(v)
    }
}

impl From<std::string::FromUtf8Error> for TunnelError {
    fn from(err: std::string::FromUtf8Error) -> (r: Self) {
        TunnelError::Utf8(err)
    }
}

impl vstd::std_specs::convert::FromSpecImpl<std::string::FromUtf8Error> for TunnelError {
    open spec fn obeys_from_spec() -> bool {
        true
    }

    open spec fn from_spec(v: std::string::FromUtf8Error) -> Self {
        TunnelError::Utf8(v)
    }
}

} // verus!
