//! Read and write Iridium Short Burst Data (SBD) messages.
//!
//! Short Burst Data messages carry a small payload between an Iridium modem
//! and a gateway. Mobile-originated (MO) messages travel from the modem; this
//! crate decodes them from their wire format, re-encodes them, stores them,
//! and builds the mobile-terminated (MT) counterparts that travel back.
//!
//! The wire format is a one-byte protocol revision, a two-byte big-endian
//! overall length, and a sequence of information elements, each a one-byte
//! identifier, a two-byte big-endian length, and that many content bytes.

use vstd::prelude::*;

pub mod bytes;
pub mod information_element;
pub mod mo;
pub mod mobile_originated;
pub mod mt;
pub mod storage;

use crate::mo::Header;
use crate::mo::HeaderV;

verus! {

/// Crate-specific errors.
#[derive(Debug, PartialEq)]
pub enum Error {
    /// The information element identifier is outside the closed set.
    InvalidInformationElementIdentifier(u8),
    /// The confirmation message status is outside the closed set.
    InvalidMessageStatus(i8),
    /// The message has an invalid protocol revision number.
    InvalidProtocolRevisionNumber(u8),
    /// The time of session does not fit the unsigned 32-bit wire field.
    InvalidTimeOfSession,
    /// An input or output failure outside the codec, described in text.
    Io(String),
    /// The timestamp is negative, but the wire field is unsigned.
    NegativeTimestamp(i64),
    /// A storage root that is not a directory, named in text.
    NotADirectory(String),
    /// There is no header in the message.
    NoHeader,
    /// There is no payload in the message.
    NoPayload,
    /// The overall message length is too big for its 16-bit wire field.
    OverallMessageLength(usize),
    /// The input holds more bytes than its declared lengths account for.
    Oversized,
    /// The payload is too long for its 16-bit length field.
    PayloadTooLong(usize),
    /// There are two headers in the message; both are carried.
    TwoHeaders(Header, Header),
    /// There are two payloads in the message; both are carried.
    TwoPayloads(Vec<u8>, Vec<u8>),
    /// The input ended before its declared lengths were satisfied.
    Undersized,
    /// The session status code is outside the closed set.
    UnknownSessionStatus(u8),
}

/// The mathematical image of an [`Error`], with owned buffers as sequences.
pub ghost enum ErrorV {
    InvalidInformationElementIdentifier(u8),
    InvalidMessageStatus(i8),
    InvalidProtocolRevisionNumber(u8),
    InvalidTimeOfSession,
    Io(Seq<char>),
    NegativeTimestamp(i64),
    NotADirectory(Seq<char>),
    NoHeader,
    NoPayload,
    OverallMessageLength(usize),
    Oversized,
    PayloadTooLong(usize),
    TwoHeaders(HeaderV, HeaderV),
    TwoPayloads(Seq<u8>, Seq<u8>),
    Undersized,
    UnknownSessionStatus(u8),
}

impl View for Error {
    type V = ErrorV;

    open spec fn view(&self) -> ErrorV {
        match self {
            Error::InvalidInformationElementIdentifier(n) => {
                ErrorV::InvalidInformationElementIdentifier(*n)
            },
            Error::InvalidMessageStatus(n) => ErrorV::InvalidMessageStatus(*n),
            Error::InvalidProtocolRevisionNumber(n) => ErrorV::InvalidProtocolRevisionNumber(*n),
            Error::InvalidTimeOfSession => ErrorV::InvalidTimeOfSession,
            Error::Io(s) => ErrorV::Io(s@),
            Error::NegativeTimestamp(t) => ErrorV::NegativeTimestamp(*t),
            Error::NotADirectory(s) => ErrorV::NotADirectory(s@),
            Error::NoHeader => ErrorV::NoHeader,
            Error::NoPayload => ErrorV::NoPayload,
            Error::OverallMessageLength(n) => ErrorV::OverallMessageLength(*n),
            Error::Oversized => ErrorV::Oversized,
            Error::PayloadTooLong(n) => ErrorV::PayloadTooLong(*n),
            Error::TwoHeaders(a, b) => ErrorV::TwoHeaders(a@, b@),
            Error::TwoPayloads(a, b) => ErrorV::TwoPayloads(a@, b@),
            Error::Undersized => ErrorV::Undersized,
            Error::UnknownSessionStatus(n) => ErrorV::UnknownSessionStatus(*n),
        }
    }
}

} // verus!
