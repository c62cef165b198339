//! The information elements of a mobile-originated message.
//!
//! Information elements are the building blocks of an SBD message. Each is
//! encoded as a one-byte identifier, a two-byte big-endian length, and that
//! many content bytes.

use crate::bytes::be16_bytes;
use crate::bytes::be16_val;
use crate::bytes::be32_bytes;
use crate::bytes::be32_val;
use crate::bytes::get_u16;
use crate::bytes::get_u32;
use crate::bytes::lemma_be16_roundtrip;
use crate::bytes::lemma_be32_roundtrip;
use crate::bytes::put_u16;
use crate::bytes::put_u32;
use crate::mo::lemma_status_code_roundtrip;
use crate::mo::location::spec_parse_location;
use crate::mo::spec_status_code;
use crate::mo::spec_status_of_code;
use crate::mo::Header;
use crate::mo::HeaderV;
use crate::mo::MoLocation;
use crate::mo::MoLocationError;
use crate::mo::SessionStatus;
use crate::Error;
use crate::ErrorV;
use vstd::prelude::*;

verus! {

/// A mobile-originated information element.
#[derive(Debug)]
pub enum InformationElement {
    /// The element holding the mobile-originated header (tag 0x01).
    Header(Header),
    /// The mobile-originated payload (tag 0x02).
    Payload(Vec<u8>),
    /// The mobile-originated location information (tag 0x03), kept as its
    /// eleven raw content bytes.
    LocationInformation([u8; 11]),
}

/// The mathematical image of an information element.
pub ghost enum InformationElementV {
    Header(HeaderV),
    Payload(Seq<u8>),
    LocationInformation(Seq<u8>),
}

impl View for InformationElement {
    type V = InformationElementV;

    open spec fn view(&self) -> InformationElementV {
        match self {
            InformationElement::Header(h) => InformationElementV::Header(h@),
            InformationElement::Payload(p) => InformationElementV::Payload(p@),
            InformationElement::LocationInformation(l) => {
                InformationElementV::LocationInformation(l@)
            },
        }
    }
}

impl InformationElementV {
    /// Structural well-formedness: the fixed-layout elements hold exactly as
    /// many bytes as their wire layout declares.
    pub open spec fn wf(self) -> bool {
        match self {
            InformationElementV::Header(h) => h.wf(),
            InformationElementV::Payload(_) => true,
            InformationElementV::LocationInformation(l) => l.len() == 11,
        }
    }

    /// True if the element fits its wire fields: the session time fits the
    /// unsigned 32-bit field and the payload fits its 16-bit length field.
    pub open spec fn encodable(self) -> bool {
        match self {
            InformationElementV::Header(h) => h.time_encodable(),
            InformationElementV::Payload(p) => p.len() <= 65535,
            InformationElementV::LocationInformation(_) => true,
        }
    }
}

/// The 28 content bytes of a header element.
pub open spec fn spec_header_content(h: HeaderV) -> Seq<u8>
    recommends
        h.wf(),
        h.time_encodable(),
{
    be32_bytes(h.auto_id) + h.imei + seq![spec_status_code(h.session_status)]
        + be16_bytes(h.momsn) + be16_bytes(h.mtmsn) + be32_bytes(h.time_of_session as u32)
}

/// The full encoding of an information element: tag, length, content.
pub open spec fn spec_encode_ie(ie: InformationElementV) -> Seq<u8>
    recommends
        ie.wf(),
        ie.encodable(),
{
    match ie {
        InformationElementV::Header(h) => seq![1u8] + be16_bytes(28) + spec_header_content(h),
        InformationElementV::Payload(p) => seq![2u8] + be16_bytes(p.len() as u16) + p,
        InformationElementV::LocationInformation(l) => seq![3u8] + be16_bytes(11) + l,
    }
}

/// The fully-encoded size of an information element: a 3-byte element header
/// plus the content.
pub open spec fn spec_ie_len(ie: InformationElementV) -> int {
    match ie {
        InformationElementV::Header(_) => 31,
        InformationElementV::Payload(p) => 3 + p.len() as int,
        InformationElementV::LocationInformation(_) => 14,
    }
}

/// The element named by a tag and its content bytes, or the error that
/// rejects them.
///
/// The fixed-layout elements insist on their exact content size: fewer bytes
/// than the layout needs are undersized, more are oversized. A header whose
/// status code is outside the closed set is rejected.
pub open spec fn spec_parse_ie_content(iei: u8, content: Seq<u8>) -> Result<
    InformationElementV,
    ErrorV,
> {
    if iei == 1 {
        if content.len() < 28 {
            Err(ErrorV::Undersized)
        } else if content.len() > 28 {
            Err(ErrorV::Oversized)
        } else {
            match spec_status_of_code(content[19]) {
                None => Err(ErrorV::UnknownSessionStatus(content[19])),
                Some(status) => Ok(
                    InformationElementV::Header(
                        HeaderV {
                            auto_id: be32_val(content[0], content[1], content[2], content[3]),
                            imei: content.subrange(4, 19),
                            session_status: status,
                            momsn: be16_val(content[20], content[21]),
                            mtmsn: be16_val(content[22], content[23]),
                            time_of_session: be32_val(
                                content[24],
                                content[25],
                                content[26],
                                content[27],
                            ) as i64,
                        },
                    ),
                ),
            }
        }
    } else if iei == 2 {
        Ok(InformationElementV::Payload(content))
    } else if iei == 3 {
        if content.len() < 11 {
            Err(ErrorV::Undersized)
        } else if content.len() > 11 {
            Err(ErrorV::Oversized)
        } else {
            Ok(InformationElementV::LocationInformation(content))
        }
    } else {
        Err(ErrorV::InvalidInformationElementIdentifier(iei))
    }
}

/// One information element read from the front of a byte sequence, together
/// with how many bytes it consumed, or the error that rejects the bytes.
pub open spec fn spec_parse_one_ie(b: Seq<u8>) -> Result<(InformationElementV, int), ErrorV> {
    if b.len() < 3 {
        Err(ErrorV::Undersized)
    } else {
        let clen = be16_val(b[1], b[2]) as int;
        if 3 + clen > b.len() {
            Err(ErrorV::Undersized)
        } else {
            match spec_parse_ie_content(b[0], b.subrange(3, 3 + clen)) {
                Err(e) => Err(e),
                Ok(ie) => Ok((ie, 3 + clen)),
            }
        }
    }
}

/// A parsed element is well formed and consumed at least its element header.
pub proof fn lemma_parse_one_ie_wf(b: Seq<u8>)
    ensures
        spec_parse_one_ie(b) matches Ok((ie, n)) ==> ie.wf() && 3 <= n <= b.len(),
{
    if b.len() >= 3 {
        let clen = be16_val(b[1], b[2]) as int;
        if 3 + clen <= b.len() {
            let content = b.subrange(3, 3 + clen);
            if b[0] == 1 && content.len() == 28 {
                assert(content.subrange(4, 19).len() == 15);
            }
        }
    }
}

/// Parsing the encoding of a well-formed element, with anything after it,
/// yields the element back and consumes exactly its encoded size.
pub proof fn lemma_parse_one_ie_of_encode(ie: InformationElementV, rest: Seq<u8>)
    requires
        ie.wf(),
        ie.encodable(),
    ensures
        spec_parse_one_ie(spec_encode_ie(ie) + rest) == Ok::<(InformationElementV, int), ErrorV>(
            (ie, spec_ie_len(ie)),
        ),
{
    let b = spec_encode_ie(ie) + rest;
    match ie {
        InformationElementV::Header(h) => {
            let content = spec_header_content(h);
            assert(content.len() == 28);
            lemma_be16_roundtrip(28);
            assert(b[1] == be16_bytes(28)[0] && b[2] == be16_bytes(28)[1]);
            assert(be16_val(b[1], b[2]) == 28);
            assert(b.subrange(3, 31) =~= content);
            lemma_be32_roundtrip(h.auto_id);
            assert(content.subrange(4, 19) =~= h.imei);
            assert(content[19] == spec_status_code(h.session_status));
            lemma_status_code_roundtrip(h.session_status);
            lemma_be16_roundtrip(h.momsn);
            lemma_be16_roundtrip(h.mtmsn);
            lemma_be32_roundtrip(h.time_of_session as u32);
            let parsed = spec_parse_ie_content(1, content);
            assert(parsed matches Ok(InformationElementV::Header(h2)) && h2 == h);
        },
        InformationElementV::Payload(p) => {
            lemma_be16_roundtrip(p.len() as u16);
            assert(be16_val(b[1], b[2]) == p.len());
            assert(b.subrange(3, 3 + p.len() as int) =~= p);
        },
        InformationElementV::LocationInformation(l) => {
            lemma_be16_roundtrip(11);
            assert(be16_val(b[1], b[2]) == 11);
            assert(b.subrange(3, 14) =~= l);
        },
    }
}

impl InformationElement {
    /// Reads one information element from the front of `bytes`.
    ///
    /// On success returns the element and the number of bytes it consumed.
    /// The bytes are rejected exactly as [`spec_parse_one_ie`] says: an
    /// unrecognized tag, a content run cut short by the end of the input, a
    /// fixed-layout element whose declared length does not match its layout,
    /// or an unknown session status.
    pub fn read_from(bytes: &[u8]) -> (r: Result<(InformationElement, usize), Error>)
        ensures
            match r {
                Ok((ie, n)) => spec_parse_one_ie(bytes@) == Ok::<(InformationElementV, int), ErrorV>(
                    (ie@, n as int),
                ),
                Err(e) => spec_parse_one_ie(bytes@) == Err::<(InformationElementV, int), ErrorV>(
                    e@,
                ),
            },
    {
        if bytes.len() < 3 {
            return Err(Error::Undersized);
        }
        let clen = get_u16(bytes, 1) as usize;
        if clen > bytes.len() - 3 {
            return Err(Error::Undersized);
        }
        let ghost content = bytes@.subrange(3, 3 + clen as int);
        let iei = bytes[0];
        if iei == 1 {
            if clen < 28 {
                return Err(Error::Undersized);
            }
            if clen > 28 {
                return Err(Error::Oversized);
            }
            let auto_id = get_u32(bytes, 3);
            let imei: [u8; 15] = [
                bytes[7],
                bytes[8],
                bytes[9],
                bytes[10],
                bytes[11],
                bytes[12],
                bytes[13],
                bytes[14],
                bytes[15],
                bytes[16],
                bytes[17],
                bytes[18],
                bytes[19],
                bytes[20],
                bytes[21],
            ];
            let session_status = match SessionStatus::new(bytes[22]) {
                Ok(status) => status,
                Err(e) => {
                    return Err(e);
                },
            };
            let momsn = get_u16(bytes, 23);
            let mtmsn = get_u16(bytes, 25);
            let time_of_session = get_u32(bytes, 27) as i64;
            let header = Header {
                auto_id,
                imei,
                session_status,
                momsn,
                mtmsn,
                time_of_session,
            };
            proof {
                assert(header@.imei =~= content.subrange(4, 19));
                assert(content[0] == bytes@[3] && content[1] == bytes@[4] && content[2] == bytes@[5]
                    && content[3] == bytes@[6]);
            }
            Ok((InformationElement::Header(header), 31))
        } else if iei == 2 {
            let mut payload: Vec<u8> = Vec::new();
            let mut i: usize = 0;
            while i < clen
                invariant
                    i <= clen,
                    clen <= 65535,
                    clen + 3 <= bytes@.len(),
                    payload@ =~= bytes@.subrange(3, 3 + i as int),
                decreases clen - i,
            {
                payload.push(bytes[3 + i]);
                i = i + 1;
            }
            proof {
                assert(payload@ =~= content);
            }
            Ok((InformationElement::Payload(payload), 3 + clen))
        } else if iei == 3 {
            if clen < 11 {
                return Err(Error::Undersized);
            }
            if clen > 11 {
                return Err(Error::Oversized);
            }
            let location: [u8; 11] = [
                bytes[3],
                bytes[4],
                bytes[5],
                bytes[6],
                bytes[7],
                bytes[8],
                bytes[9],
                bytes[10],
                bytes[11],
                bytes[12],
                bytes[13],
            ];
            proof {
                assert(location@ =~= content);
            }
            Ok((InformationElement::LocationInformation(location), 14))
        } else {
            Err(Error::InvalidInformationElementIdentifier(iei))
        }
    }

    /// Returns the fully-encoded size of this element: the 3-byte element
    /// header plus the content.
    pub fn len(&self) -> (r: usize)
        requires
            spec_ie_len(self@) <= usize::MAX,
        ensures
            r == spec_ie_len(self@),
    {
        match self {
            InformationElement::Header(_) => 31,
            InformationElement::Payload(payload) => 3 + payload.len(),
            InformationElement::LocationInformation(_) => 14,
        }
    }

    /// Returns true if this element is an empty payload.
    pub fn is_empty(&self) -> (r: bool)
        ensures
            r == (self@ matches InformationElementV::Payload(p) && p.len() == 0),
    {
        match self {
            InformationElement::Payload(payload) => payload.len() == 0,
            _ => false,
        }
    }

    /// Writes this element as tag, length, and content.
    ///
    /// On an error nothing is appended: a header whose session time is
    /// negative is rejected with [`Error::NegativeTimestamp`], one whose time
    /// does not fit the unsigned 32-bit field with
    /// [`Error::InvalidTimeOfSession`], and a payload longer than 65535
    /// bytes with [`Error::PayloadTooLong`].
    pub fn write_to(&self, out: &mut Vec<u8>) -> (r: Result<(), Error>)
        ensures
            match r {
                Ok(()) => self@.encodable() && final(out)@ == old(out)@ + spec_encode_ie(self@),
                Err(e) => final(out)@ == old(out)@ && !self@.encodable() && e@ == spec_ie_write_err(
                    self@,
                ),
            },
    {
        match self {
            InformationElement::Header(header) => write_header_ie(header, out),
            InformationElement::Payload(payload) => write_payload_ie(payload, out),
            InformationElement::LocationInformation(location) => {
                write_location_ie(location, out);
                Ok(())
            },
        }
    }

    /// If this is a location-information element, parses it into a
    /// [`MoLocation`].
    pub fn as_mo_location(&self) -> (r: Option<Result<MoLocation, MoLocationError>>)
        ensures
            match self@ {
                InformationElementV::LocationInformation(l) => r == Some(spec_parse_location(l)),
                _ => r is None,
            },
    {
        match self {
            InformationElement::LocationInformation(bytes) => Some(MoLocation::parse(*bytes)),
            _ => None,
        }
    }
}

/// Writes a header element: tag 0x01, length 28, and the 28 content bytes.
///
/// On an error nothing is appended: a negative session time is rejected with
/// [`Error::NegativeTimestamp`], one above the unsigned 32-bit range with
/// [`Error::InvalidTimeOfSession`].
pub(crate) fn write_header_ie(header: &Header, out: &mut Vec<u8>) -> (r: Result<(), Error>)
    ensures
        match r {
            Ok(()) => header@.time_encodable() && final(out)@ == old(out)@ + spec_encode_ie(
                InformationElementV::Header(header@),
            ),
            Err(e) => final(out)@ == old(out)@ && !header@.time_encodable() && e@
                == spec_ie_write_err(InformationElementV::Header(header@)),
        },
{
    if header.time_of_session < 0 {
        return Err(Error::NegativeTimestamp(header.time_of_session));
    }
    if header.time_of_session > u32::MAX as i64 {
        return Err(Error::InvalidTimeOfSession);
    }
    out.push(1);
    put_u16(out, 28);
    put_u32(out, header.auto_id);
    let mut i: usize = 0;
    while i < 15
        invariant
            i <= 15,
            out@ =~= old(out)@ + seq![1u8] + be16_bytes(28) + be32_bytes(header.auto_id)
                + header@.imei.subrange(0, i as int),
        decreases 15 - i,
    {
        out.push(header.imei[i]);
        i = i + 1;
    }
    out.push(header.session_status.code());
    put_u16(out, header.momsn);
    put_u16(out, header.mtmsn);
    put_u32(out, header.time_of_session as u32);
    proof {
        assert(header@.imei.subrange(0, 15) =~= header@.imei);
        assert(out@ =~= old(out)@ + spec_encode_ie(InformationElementV::Header(header@)));
    }
    Ok(())
}

/// Writes a payload element: tag 0x02, the payload's length, and its bytes.
///
/// A payload longer than 65535 bytes does not fit the 16-bit length field
/// and is rejected with [`Error::PayloadTooLong`]; nothing is appended then.
pub(crate) fn write_payload_ie(payload: &Vec<u8>, out: &mut Vec<u8>) -> (r: Result<(), Error>)
    ensures
        match r {
            Ok(()) => payload@.len() <= 65535 && final(out)@ == old(out)@ + spec_encode_ie(
                InformationElementV::Payload(payload@),
            ),
            Err(e) => final(out)@ == old(out)@ && payload@.len() > 65535 && e@
                == spec_ie_write_err(InformationElementV::Payload(payload@)),
        },
{
    if payload.len() > 65535 {
        return Err(Error::PayloadTooLong(payload.len()));
    }
    out.push(2);
    put_u16(out, payload.len() as u16);
    let mut i: usize = 0;
    while i < payload.len()
        invariant
            i <= payload@.len(),
            payload@.len() <= 65535,
            out@ =~= old(out)@ + seq![2u8] + be16_bytes(payload@.len() as u16) + payload@.subrange(
                0,
                i as int,
            ),
        decreases payload@.len() - i,
    {
        out.push(payload[i]);
        i = i + 1;
    }
    proof {
        assert(payload@.subrange(0, payload@.len() as int) =~= payload@);
        assert(out@ =~= old(out)@ + spec_encode_ie(InformationElementV::Payload(payload@)));
    }
    Ok(())
}

/// Writes a location element: tag 0x03, length 11, and the eleven bytes.
pub(crate) fn write_location_ie(location: &[u8; 11], out: &mut Vec<u8>)
    ensures
        final(out)@ == old(out)@ + spec_encode_ie(InformationElementV::LocationInformation(
            location@,
        )),
{
    out.push(3);
    put_u16(out, 11);
    let mut i: usize = 0;
    while i < 11
        invariant
            i <= 11,
            out@ =~= old(out)@ + seq![3u8] + be16_bytes(11) + location@.subrange(0, i as int),
        decreases 11 - i,
    {
        out.push(location[i]);
        i = i + 1;
    }
    proof {
        assert(location@.subrange(0, 11) =~= location@);
        assert(out@ =~= old(out)@ + spec_encode_ie(InformationElementV::LocationInformation(
            location@,
        )));
    }
}

/// The error that [`InformationElement::write_to`] returns for an element
/// that does not fit its wire fields.
pub open spec fn spec_ie_write_err(ie: InformationElementV) -> ErrorV
    recommends
        !ie.encodable(),
{
    match ie {
        InformationElementV::Header(h) => if h.time_of_session < 0 {
            ErrorV::NegativeTimestamp(h.time_of_session)
        } else {
            ErrorV::InvalidTimeOfSession
        },
        InformationElementV::Payload(p) => ErrorV::PayloadTooLong(p.len() as usize),
        // A location element always fits its wire fields, so no error
        // belongs to it; this arm is never reached.
        InformationElementV::LocationInformation(_) => ErrorV::Oversized,
    }
}

impl Clone for InformationElement {
    /// The clone holds the same element.
    fn clone(&self) -> (r: Self)
        ensures
            r@ == self@,
    {
        match self {
            InformationElement::Header(h) => InformationElement::Header(*h),
            InformationElement::Payload(p) => {
                let mut q: Vec<u8> = Vec::new();
                let mut i: usize = 0;
                while i < p.len()
                    invariant
                        i <= p@.len(),
                        q@ =~= p@.subrange(0, i as int),
                    decreases p@.len() - i,
                {
                    q.push(p[i]);
                    i = i + 1;
                }
                proof {
                    assert(q@ =~= p@);
                }
                InformationElement::Payload(q)
            },
            InformationElement::LocationInformation(l) => {
                InformationElement::LocationInformation(*l)
            },
        }
    }
}

impl From<Header> for InformationElement {
    fn from(header: Header) -> (r: InformationElement) {
        InformationElement::Header(header)
    }
}

impl vstd::std_specs::convert::FromSpecImpl<Header> for InformationElement {
    open spec fn obeys_from_spec() -> bool {
        true
    }

    open spec fn from_spec(header: Header) -> InformationElement {
        InformationElement::Header(header)
    }
}

impl From<Vec<u8>> for InformationElement {
    fn from(payload: Vec<u8>) -> (r: InformationElement) {
        InformationElement::Payload(payload)
    }
}

impl vstd::std_specs::convert::FromSpecImpl<Vec<u8>> for InformationElement {
    open spec fn obeys_from_spec() -> bool {
        true
    }

    open spec fn from_spec(payload: Vec<u8>) -> InformationElement {
        InformationElement::Payload(payload)
    }
}

} // verus!
