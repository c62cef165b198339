//! A complete mobile-originated message and its wire codec.

use crate::bytes::be16_bytes;
use crate::bytes::be16_val;
use crate::bytes::get_u16;
use crate::bytes::lemma_be16_roundtrip;
use crate::mo::information_element::write_header_ie;
use crate::mo::information_element::write_location_ie;
use crate::mo::information_element::write_payload_ie;
use crate::mo::lemma_parse_one_ie_of_encode;
use crate::mo::lemma_parse_one_ie_wf;
use crate::mo::spec_encode_ie;
use crate::mo::spec_ie_len;
use crate::mo::spec_parse_one_ie;
use crate::mo::Header;
use crate::mo::HeaderV;
use crate::mo::InformationElement;
use crate::mo::InformationElementV;
use crate::Error;
use crate::ErrorV;
use vstd::prelude::*;

verus! {

/// The only valid protocol revision number.
pub const PROTOCOL_REVISION_NUMBER: u8 = 1;

/// The protocol revision byte that opens every SBD message.
pub struct ProtocolRevisionNumber(pub u8);

impl ProtocolRevisionNumber {
    /// Returns true if this is a valid protocol revision number.
    pub fn valid(&self) -> (r: bool)
        ensures
            r == (self.0 == 1),
    {
        self.0 == PROTOCOL_REVISION_NUMBER
    }
}

/// A mobile-originated Iridium SBD message.
///
/// A message holds exactly one header, exactly one payload, and any further
/// information elements in their arrival order. Messages are ordered by time
/// of session.
#[derive(Debug)]
pub struct Message {
    header: Header,
    payload: Vec<u8>,
    information_elements: Vec<InformationElement>,
}

/// The mathematical image of a message.
pub ghost struct MessageV {
    pub header: HeaderV,
    pub payload: Seq<u8>,
    pub extras: Seq<InformationElementV>,
}

/// The images of a sequence of information elements.
pub open spec fn spec_views(ies: Seq<InformationElement>) -> Seq<InformationElementV> {
    ies.map_values(|ie: InformationElement| ie@)
}

impl MessageV {
    /// Structural well-formedness: the header holds fifteen device-id bytes
    /// and every extra element is an eleven-byte location element.
    pub open spec fn wf(self) -> bool {
        self.header.wf() && forall|i: int|
            0 <= i < self.extras.len() ==> ((#[trigger] self.extras[i]) matches
            InformationElementV::LocationInformation(l) && l.len() == 11)
    }

    /// True if the message fits its wire fields: the session time fits the
    /// unsigned 32-bit field and the overall length its 16-bit field.
    pub open spec fn encodable(self) -> bool {
        self.header.time_encodable() && spec_overall_len(self) <= 65535
    }
}

impl View for Message {
    type V = MessageV;

    closed spec fn view(&self) -> MessageV {
        MessageV {
            header: self.header@,
            payload: self.payload@,
            extras: spec_views(self.information_elements@),
        }
    }
}

/// The summed encoded sizes of a sequence of information elements.
pub open spec fn spec_ies_len(ies: Seq<InformationElementV>) -> int
    decreases ies.len(),
{
    if ies.len() == 0 {
        0
    } else {
        spec_ie_len(ies[0]) + spec_ies_len(ies.skip(1))
    }
}

/// The concatenated encodings of a sequence of information elements.
pub open spec fn spec_encode_ies(ies: Seq<InformationElementV>) -> Seq<u8>
    decreases ies.len(),
{
    if ies.len() == 0 {
        Seq::empty()
    } else {
        spec_encode_ie(ies[0]) + spec_encode_ies(ies.skip(1))
    }
}

/// All the information elements of a message: header, payload, extras.
pub open spec fn spec_message_ies(m: MessageV) -> Seq<InformationElementV> {
    seq![
        InformationElementV::Header(m.header),
        InformationElementV::Payload(m.payload),
    ] + m.extras
}

/// The overall message length: the summed encoded sizes of every element.
/// The wire format records it in the 16-bit field after the revision byte.
pub open spec fn spec_overall_len(m: MessageV) -> int {
    spec_ies_len(spec_message_ies(m))
}

/// The full encoding of a message: revision byte, overall length, elements.
pub open spec fn spec_encode_message(m: MessageV) -> Seq<u8>
    recommends
        m.wf(),
        m.encodable(),
{
    seq![1u8] + be16_bytes(spec_overall_len(m) as u16) + spec_encode_ies(spec_message_ies(m))
}

/// The sequence of information elements a byte run holds, or the error on
/// which its decoding stops.
pub open spec fn spec_parse_ies(b: Seq<u8>) -> Result<Seq<InformationElementV>, ErrorV>
    decreases b.len(),
{
    if b.len() == 0 {
        Ok(Seq::empty())
    } else {
        match spec_parse_one_ie(b) {
            Err(e) => Err(e),
            Ok((ie, n)) => {
                if n < 1 || n > b.len() {
                    Err(ErrorV::Undersized)
                } else {
                    match spec_parse_ies(b.skip(n)) {
                        Err(e) => Err(e),
                        Ok(rest) => Ok(seq![ie] + rest),
                    }
                }
            },
        }
    }
}

/// One classification step over a stream of elements: the first header and
/// the first payload are set aside, further elements gather in `extras` in
/// arrival order, and a second header or payload stops everything with an
/// error that carries both.
pub open spec fn spec_collect(
    ies: Seq<InformationElementV>,
    header: Option<HeaderV>,
    payload: Option<Seq<u8>>,
    extras: Seq<InformationElementV>,
) -> Result<MessageV, ErrorV>
    decreases ies.len(),
{
    if ies.len() == 0 {
        match header {
            None => Err(ErrorV::NoHeader),
            Some(h) => match payload {
                None => Err(ErrorV::NoPayload),
                Some(p) => Ok(MessageV { header: h, payload: p, extras }),
            },
        }
    } else {
        match ies[0] {
            InformationElementV::Header(h) => match header {
                Some(h0) => Err(ErrorV::TwoHeaders(h, h0)),
                None => spec_collect(ies.skip(1), Some(h), payload, extras),
            },
            InformationElementV::Payload(p) => match payload {
                Some(p0) => Err(ErrorV::TwoPayloads(p, p0)),
                None => spec_collect(ies.skip(1), header, Some(p), extras),
            },
            InformationElementV::LocationInformation(l) => spec_collect(
                ies.skip(1),
                header,
                payload,
                extras.push(InformationElementV::LocationInformation(l)),
            ),
        }
    }
}

/// The message a stream of information elements assembles into, or the error
/// that rejects the stream.
pub open spec fn spec_new_message(ies: Seq<InformationElementV>) -> Result<MessageV, ErrorV> {
    spec_collect(ies, None, None, Seq::empty())
}

/// The message a byte stream holds, or the error that rejects the stream.
///
/// The stream must open with revision byte 1 and the declared overall length
/// must account for every remaining byte: fewer bytes are undersized, extra
/// trailing bytes are oversized.
pub open spec fn spec_read_message(bytes: Seq<u8>) -> Result<MessageV, ErrorV> {
    if bytes.len() < 1 {
        Err(ErrorV::Undersized)
    } else if bytes[0] != 1 {
        Err(ErrorV::InvalidProtocolRevisionNumber(bytes[0]))
    } else if bytes.len() < 3 {
        Err(ErrorV::Undersized)
    } else {
        let n = be16_val(bytes[1], bytes[2]) as int;
        if bytes.len() < 3 + n {
            Err(ErrorV::Undersized)
        } else if bytes.len() > 3 + n {
            Err(ErrorV::Oversized)
        } else {
            match spec_parse_ies(bytes.subrange(3, 3 + n)) {
                Err(e) => Err(e),
                Ok(ies) => spec_new_message(ies),
            }
        }
    }
}

/// A length clipped to what a `usize` can carry.
pub open spec fn spec_clip_len(n: int) -> usize {
    if n > usize::MAX {
        usize::MAX
    } else {
        n as usize
    }
}

/// Whether writing a message succeeds, and with which error it fails: an
/// overall length beyond the 16-bit field is rejected first, then a negative
/// session time, then one beyond the unsigned 32-bit field.
pub open spec fn spec_message_write_result(m: MessageV) -> Result<(), ErrorV> {
    if spec_overall_len(m) > 65535 {
        Err(ErrorV::OverallMessageLength(spec_clip_len(spec_overall_len(m))))
    } else if m.header.time_of_session < 0 {
        Err(ErrorV::NegativeTimestamp(m.header.time_of_session))
    } else if m.header.time_of_session > u32::MAX {
        Err(ErrorV::InvalidTimeOfSession)
    } else {
        Ok(())
    }
}

/// A parse prefix joined with the result of parsing the remaining bytes.
pub open spec fn spec_append_parsed(
    prefix: Seq<InformationElementV>,
    r: Result<Seq<InformationElementV>, ErrorV>,
) -> Result<Seq<InformationElementV>, ErrorV> {
    match r {
        Ok(s) => Ok(prefix + s),
        Err(e) => Err(e),
    }
}

/// The image of an optional header.
pub open spec fn spec_opt_header(h: Option<Header>) -> Option<HeaderV> {
    match h {
        Some(x) => Some(x@),
        None => None,
    }
}

/// The image of an optional payload.
pub open spec fn spec_opt_payload(p: Option<Vec<u8>>) -> Option<Seq<u8>> {
    match p {
        Some(x) => Some(x@),
        None => None,
    }
}

/// Appending one element adds its size to the summed size.
pub proof fn lemma_ies_len_push(ies: Seq<InformationElementV>, ie: InformationElementV)
    ensures
        spec_ies_len(ies.push(ie)) == spec_ies_len(ies) + spec_ie_len(ie),
    decreases ies.len(),
{
    if ies.len() == 0 {
        assert(ies.push(ie).skip(1) =~= Seq::empty());
        assert(spec_ies_len(Seq::<InformationElementV>::empty()) == 0);
        assert(ies.push(ie)[0] == ie);
    } else {
        assert(ies.push(ie).skip(1) =~= ies.skip(1).push(ie));
        lemma_ies_len_push(ies.skip(1), ie);
        assert(ies.push(ie)[0] == ies[0]);
        assert(spec_ies_len(ies.skip(1).push(ie)) == spec_ies_len(ies.skip(1)) + spec_ie_len(ie));
    }
}

/// Appending one element appends its encoding.
pub proof fn lemma_encode_ies_push(ies: Seq<InformationElementV>, ie: InformationElementV)
    ensures
        spec_encode_ies(ies.push(ie)) =~= spec_encode_ies(ies) + spec_encode_ie(ie),
    decreases ies.len(),
{
    if ies.len() == 0 {
        assert(ies.push(ie).skip(1) =~= Seq::empty());
        assert(spec_encode_ies(Seq::<InformationElementV>::empty()) =~= Seq::<u8>::empty());
        assert(ies.push(ie)[0] == ie);
        assert(spec_encode_ies(ies) =~= Seq::empty());
    } else {
        assert(ies.push(ie).skip(1) =~= ies.skip(1).push(ie));
        lemma_encode_ies_push(ies.skip(1), ie);
        assert(ies.push(ie)[0] == ies[0]);
        assert(spec_encode_ies(ies.skip(1).push(ie)) =~= spec_encode_ies(ies.skip(1))
            + spec_encode_ie(ie));
    }
}

/// The encoding of a well-formed, encodable element has its encoded size.
pub proof fn lemma_encode_ie_len(ie: InformationElementV)
    requires
        ie.wf(),
        ie.encodable(),
    ensures
        spec_encode_ie(ie).len() == spec_ie_len(ie),
{
}

/// The encoding of well-formed, encodable elements has their summed size.
pub proof fn lemma_encode_ies_len(ies: Seq<InformationElementV>)
    requires
        forall|i: int| 0 <= i < ies.len() ==> (#[trigger] ies[i]).wf() && ies[i].encodable(),
    ensures
        spec_encode_ies(ies).len() == spec_ies_len(ies),
    decreases ies.len(),
{
    if ies.len() > 0 {
        lemma_encode_ies_len(ies.skip(1));
        assert(ies[0].wf() && ies[0].encodable());
        lemma_encode_ie_len(ies[0]);
    }
}

/// One definitional step of [`spec_parse_ies`]: a successfully parsed first
/// element followed by a successfully parsed remainder parses as the whole.
proof fn lemma_parse_ies_step(
    b: Seq<u8>,
    ie: InformationElementV,
    n: int,
    rest: Seq<InformationElementV>,
)
    requires
        b.len() > 0,
        spec_parse_one_ie(b) == Ok::<(InformationElementV, int), ErrorV>((ie, n)),
        1 <= n <= b.len(),
        spec_parse_ies(b.skip(n)) == Ok::<Seq<InformationElementV>, ErrorV>(rest),
    ensures
        spec_parse_ies(b) == Ok::<Seq<InformationElementV>, ErrorV>(seq![ie] + rest),
{
}

/// Parsing the concatenated encodings of well-formed, encodable elements
/// yields exactly those elements.
pub proof fn lemma_parse_ies_of_encode(ies: Seq<InformationElementV>)
    requires
        forall|i: int| 0 <= i < ies.len() ==> (#[trigger] ies[i]).wf() && ies[i].encodable(),
    ensures
        spec_parse_ies(spec_encode_ies(ies)) == Ok::<Seq<InformationElementV>, ErrorV>(ies),
    decreases ies.len(),
{
    if ies.len() > 0 {
        let first = ies[0];
        let rest = ies.skip(1);
        let b = spec_encode_ies(ies);
        let tail = spec_encode_ies(rest);
        assert(first.wf() && first.encodable());
        assert(b == spec_encode_ie(first) + tail);
        lemma_parse_one_ie_of_encode(first, tail);
        lemma_encode_ie_len(first);
        let n = spec_ie_len(first);
        assert(spec_parse_one_ie(b) == Ok::<(InformationElementV, int), ErrorV>((first, n)));
        lemma_parse_one_ie_wf(b);
        assert(1 <= n <= b.len());
        assert(b.skip(n) =~= tail);
        lemma_parse_ies_of_encode(rest);
        assert(spec_parse_ies(b.skip(n)) == Ok::<Seq<InformationElementV>, ErrorV>(rest));
        lemma_parse_ies_step(b, first, n, rest);
        assert(seq![first] + rest =~= ies);
    } else {
        assert(spec_encode_ies(ies) =~= Seq::empty());
        assert(ies =~= Seq::empty());
    }
}

/// Collecting a run of location elements after both the header and the
/// payload have been found succeeds and keeps the gathered extras in order.
pub proof fn lemma_collect_locations(
    ies: Seq<InformationElementV>,
    h: HeaderV,
    p: Seq<u8>,
    extras: Seq<InformationElementV>,
)
    requires
        forall|i: int|
            0 <= i < ies.len() ==> (#[trigger] ies[i]) matches
                InformationElementV::LocationInformation(l),
    ensures
        spec_collect(ies, Some(h), Some(p), extras) == Ok::<MessageV, ErrorV>(
            MessageV { header: h, payload: p, extras: extras + ies },
        ),
    decreases ies.len(),
{
    if ies.len() == 0 {
        assert(extras + ies =~= extras);
    } else {
        lemma_collect_locations(ies.skip(1), h, p, extras.push(ies[0]));
        assert(extras.push(ies[0]) + ies.skip(1) =~= extras + ies);
        assert(spec_collect(ies, Some(h), Some(p), extras) == spec_collect(
            ies.skip(1),
            Some(h),
            Some(p),
            extras.push(ies[0]),
        ));
    }
}

/// Assembling the elements of a well-formed message gives the message back.
pub proof fn lemma_new_of_message_ies(m: MessageV)
    requires
        m.wf(),
    ensures
        spec_new_message(spec_message_ies(m)) == Ok::<MessageV, ErrorV>(m),
{
    let ies = spec_message_ies(m);
    let s1 = ies.skip(1);
    assert(s1 =~= seq![InformationElementV::Payload(m.payload)] + m.extras);
    assert(s1.skip(1) =~= m.extras);
    let empty = Seq::<InformationElementV>::empty();
    assert(spec_collect(ies, None, None, empty) == spec_collect(s1, Some(m.header), None, empty));
    assert(spec_collect(s1, Some(m.header), None, empty) == spec_collect(
        m.extras,
        Some(m.header),
        Some(m.payload),
        empty,
    ));
    lemma_collect_locations(m.extras, m.header, m.payload, empty);
    assert(empty + m.extras =~= m.extras);
}

/// Every element of a well-formed message is well formed, and every one of
/// an encodable message encodable.
pub proof fn lemma_message_ies_wf(m: MessageV)
    requires
        m.wf(),
        m.encodable(),
    ensures
        forall|i: int|
            0 <= i < spec_message_ies(m).len() ==> (#[trigger] spec_message_ies(m)[i]).wf()
                && spec_message_ies(m)[i].encodable(),
{
    let ies = spec_message_ies(m);
    let s1 = ies.skip(1);
    assert(spec_overall_len(m) == spec_ies_len(ies));
    assert(s1 =~= seq![InformationElementV::Payload(m.payload)] + m.extras);
    assert(s1.skip(1) =~= m.extras);
    lemma_ies_len_nonneg(m.extras);
    lemma_overall_len_parts(m);
    assert(m.payload.len() <= 65535);
    assert forall|i: int| 0 <= i < ies.len() implies (#[trigger] ies[i]).wf()
        && ies[i].encodable() by {
        if i >= 2 {
            assert(ies[i] == m.extras[i - 2]);
        }
    }
}

/// The overall length split into the header element, the payload element,
/// and the extras.
pub proof fn lemma_overall_len_parts(m: MessageV)
    ensures
        spec_overall_len(m) == 34 + m.payload.len() + spec_ies_len(m.extras),
{
    let ies = spec_message_ies(m);
    let s1 = ies.skip(1);
    assert(s1 =~= seq![InformationElementV::Payload(m.payload)] + m.extras);
    assert(s1.skip(1) =~= m.extras);
    assert(spec_ies_len(ies) == spec_ie_len(ies[0]) + spec_ies_len(s1));
    assert(spec_ies_len(s1) == spec_ie_len(s1[0]) + spec_ies_len(m.extras));
}

/// The summed size of a sequence of elements is not negative.
pub proof fn lemma_ies_len_nonneg(ies: Seq<InformationElementV>)
    ensures
        spec_ies_len(ies) >= 0,
    decreases ies.len(),
{
    if ies.len() > 0 {
        lemma_ies_len_nonneg(ies.skip(1));
    }
}

/// Round trip: writing any well-formed, encodable message and reading the
/// bytes back yields an equal message.
pub proof fn lemma_message_round_trip(m: MessageV)
    requires
        m.wf(),
        m.encodable(),
    ensures
        spec_read_message(spec_encode_message(m)) == Ok::<MessageV, ErrorV>(m),
{
    let ies = spec_message_ies(m);
    let body = spec_encode_ies(ies);
    let bytes = spec_encode_message(m);
    lemma_message_ies_wf(m);
    lemma_encode_ies_len(ies);
    lemma_ies_len_nonneg(m.extras);
    let n = spec_overall_len(m);
    assert(0 <= n <= 65535);
    lemma_be16_roundtrip(n as u16);
    assert(bytes[0] == 1);
    assert(bytes[1] == be16_bytes(n as u16)[0] && bytes[2] == be16_bytes(n as u16)[1]);
    assert(be16_val(bytes[1], bytes[2]) == n);
    assert(bytes.len() == 3 + n);
    assert(bytes.subrange(3, 3 + n) =~= body);
    lemma_parse_ies_of_encode(ies);
    lemma_new_of_message_ies(m);
}

/// A stream whose first byte is not the protocol revision 1 is always
/// rejected with exactly that complaint; no later byte matters.
pub proof fn lemma_read_rejects_bad_revision(bytes: Seq<u8>)
    requires
        bytes.len() >= 1,
        bytes[0] != 1,
    ensures
        spec_read_message(bytes) == Err::<MessageV, ErrorV>(
            ErrorV::InvalidProtocolRevisionNumber(bytes[0]),
        ),
{
}

/// A stream cut short of its declared overall length is rejected as
/// undersized.
pub proof fn lemma_read_undersized(bytes: Seq<u8>)
    requires
        bytes.len() >= 3,
        bytes[0] == 1,
        bytes.len() < 3 + be16_val(bytes[1], bytes[2]),
    ensures
        spec_read_message(bytes) == Err::<MessageV, ErrorV>(ErrorV::Undersized),
{
}

/// An element whose declared content length runs past the end of the input
/// is rejected as undersized.
pub proof fn lemma_parse_one_ie_undersized(b: Seq<u8>)
    requires
        b.len() >= 3,
        3 + be16_val(b[1], b[2]) > b.len(),
    ensures
        spec_parse_one_ie(b) == Err::<(InformationElementV, int), ErrorV>(ErrorV::Undersized),
{
}

impl Message {
    /// Every message is well formed: its header holds fifteen device-id
    /// bytes and every extra element is an eleven-byte location element.
    #[verifier::type_invariant]
    pub open spec fn type_inv(self) -> bool {
        self@.wf()
    }

    /// Creates a new message from information elements.
    ///
    /// The elements are classified in one pass: the stream must hold exactly
    /// one header and exactly one payload, and every further element is
    /// preserved in arrival order. A second header or payload is rejected at
    /// once with an error carrying both; a missing header or payload is
    /// reported after the stream is exhausted, in that order.
    pub fn new(information_elements: Vec<InformationElement>) -> (r: Result<Message, Error>)
        ensures
            match r {
                Ok(m) => spec_new_message(spec_views(information_elements@))
                    == Ok::<MessageV, ErrorV>(m@) && m@.wf(),
                Err(e) => spec_new_message(spec_views(information_elements@))
                    == Err::<MessageV, ErrorV>(e@),
            },
    {
        let ghost orig = spec_views(information_elements@);
        let mut ies = information_elements;
        let mut header: Option<Header> = None;
        let mut payload: Option<Vec<u8>> = None;
        let mut extras: Vec<InformationElement> = Vec::new();
        proof {
            assert(spec_views(extras@) =~= Seq::empty());
        }
        while ies.len() > 0
            invariant
                orig == spec_views(information_elements@),
                spec_new_message(orig) == spec_collect(
                    spec_views(ies@),
                    spec_opt_header(header),
                    spec_opt_payload(payload),
                    spec_views(extras@),
                ),
                forall|i: int|
                    0 <= i < extras@.len() ==> ((#[trigger] extras@[i]@) matches
                    InformationElementV::LocationInformation(l) && l.len() == 11),
            decreases ies.len(),
        {
            let ghost pre = ies@;
            let ghost vs = spec_views(pre);
            let ghost oh = spec_opt_header(header);
            let ghost op = spec_opt_payload(payload);
            let ghost ex = spec_views(extras@);
            let ie = ies.remove(0);
            proof {
                assert(ies@ =~= pre.skip(1));
                assert(spec_views(ies@) =~= vs.skip(1));
                assert(vs[0] == ie@);
            }
            match ie {
                InformationElement::Header(h) => {
                    proof {
                        assert(vs[0] == InformationElementV::Header(h@));
                    }
                    match header {
                        Some(h0) => {
                            proof {
                                assert(spec_collect(vs, oh, op, ex) == Err::<MessageV, ErrorV>(
                                    ErrorV::TwoHeaders(h@, h0@),
                                ));
                            }
                            return Err(Error::TwoHeaders(h, h0));
                        },
                        None => {
                            proof {
                                assert(spec_collect(vs, oh, op, ex) == spec_collect(
                                    vs.skip(1),
                                    Some(h@),
                                    op,
                                    ex,
                                ));
                            }
                            header = Some(h);
                        },
                    }
                },
                InformationElement::Payload(p) => {
                    proof {
                        assert(vs[0] == InformationElementV::Payload(p@));
                    }
                    match payload {
                        Some(p0) => {
                            proof {
                                assert(spec_collect(vs, oh, op, ex) == Err::<MessageV, ErrorV>(
                                    ErrorV::TwoPayloads(p@, p0@),
                                ));
                            }
                            return Err(Error::TwoPayloads(p, p0));
                        },
                        None => {
                            proof {
                                assert(spec_collect(vs, oh, op, ex) == spec_collect(
                                    vs.skip(1),
                                    oh,
                                    Some(p@),
                                    ex,
                                ));
                            }
                            payload = Some(p);
                        },
                    }
                },
                InformationElement::LocationInformation(l) => {
                    proof {
                        assert(vs[0] == InformationElementV::LocationInformation(l@));
                        assert(spec_collect(vs, oh, op, ex) == spec_collect(
                            vs.skip(1),
                            oh,
                            op,
                            ex.push(InformationElementV::LocationInformation(l@)),
                        ));
                    }
                    extras.push(InformationElement::LocationInformation(l));
                    proof {
                        assert(spec_views(extras@) =~= ex.push(
                            InformationElementV::LocationInformation(l@),
                        ));
                    }
                },
            }
        }
        proof {
            assert(spec_views(ies@) =~= Seq::empty());
            assert(spec_new_message(orig) == spec_collect(
                Seq::empty(),
                spec_opt_header(header),
                spec_opt_payload(payload),
                spec_views(extras@),
            ));
        }
        match header {
            None => Err(Error::NoHeader),
            Some(h) => match payload {
                None => Err(Error::NoPayload),
                Some(p) => Ok(Message { header: h, payload: p, information_elements: extras }),
            },
        }
    }

    /// Reads a message from its wire bytes.
    ///
    /// The first byte must be protocol revision 1, the next two declare the
    /// overall length, and exactly that many bytes of information elements
    /// must follow: a shorter input is undersized, a longer one oversized.
    /// The result is exactly what [`spec_read_message`] names.
    pub fn read_from(bytes: &[u8]) -> (r: Result<Message, Error>)
        ensures
            match r {
                Ok(m) => spec_read_message(bytes@) == Ok::<MessageV, ErrorV>(m@) && m@.wf(),
                Err(e) => spec_read_message(bytes@) == Err::<MessageV, ErrorV>(e@),
            },
    {
        if bytes.len() < 1 {
            return Err(Error::Undersized);
        }
        if bytes[0] != PROTOCOL_REVISION_NUMBER {
            return Err(Error::InvalidProtocolRevisionNumber(bytes[0]));
        }
        if bytes.len() < 3 {
            return Err(Error::Undersized);
        }
        let n = get_u16(bytes, 1) as usize;
        if bytes.len() - 3 < n {
            return Err(Error::Undersized);
        }
        if bytes.len() - 3 > n {
            return Err(Error::Oversized);
        }
        let end = bytes.len();
        let ghost content = bytes@.subrange(3, 3 + n as int);
        let mut ies: Vec<InformationElement> = Vec::new();
        let mut pos: usize = 3;
        while pos < end
            invariant
                3 <= pos <= end,
                end == bytes@.len(),
                end == 3 + n,
                bytes@[0] == 1,
                n == be16_val(bytes@[1], bytes@[2]),
                content == bytes@.subrange(3, 3 + n as int),
                spec_parse_ies(content) == spec_append_parsed(
                    spec_views(ies@),
                    spec_parse_ies(bytes@.subrange(pos as int, end as int)),
                ),
            decreases end - pos,
        {
            let ghost remaining = bytes@.subrange(pos as int, end as int);
            let slice = &bytes[pos..end];
            match InformationElement::read_from(slice) {
                Err(e) => {
                    proof {
                        assert(spec_parse_ies(remaining) == Err::<Seq<InformationElementV>, ErrorV>(
                            e@,
                        ));
                    }
                    return Err(e);
                },
                Ok((ie, consumed)) => {
                    proof {
                        lemma_parse_one_ie_wf(remaining);
                    }
                    let ghost prefix = spec_views(ies@);
                    ies.push(ie);
                    proof {
                        assert(spec_views(ies@) =~= prefix.push(ie@));
                        let after = bytes@.subrange(pos + consumed, end as int);
                        assert(remaining.skip(consumed as int) =~= after);
                        if spec_parse_ies(after) is Ok {
                            let s = spec_parse_ies(after)->Ok_0;
                            assert(prefix + (seq![ie@] + s) =~= prefix.push(ie@) + s);
                        }
                    }
                    pos = pos + consumed;
                },
            }
        }
        proof {
            assert(bytes@.subrange(end as int, end as int) =~= Seq::<u8>::empty());
            assert(spec_views(ies@) + Seq::<InformationElementV>::empty() =~= spec_views(ies@));
            assert(spec_parse_ies(content) == Ok::<Seq<InformationElementV>, ErrorV>(
                spec_views(ies@),
            ));
        }
        Message::new(ies)
    }

    /// Writes this message back to a byte sink.
    ///
    /// On success the appended bytes are exactly the message's encoding. On
    /// an error nothing is appended, and the error is what
    /// [`spec_message_write_result`] names: an overall length beyond 65535,
    /// then a negative session time, then one beyond the unsigned 32-bit
    /// range.
    pub fn write_to(&self, out: &mut Vec<u8>) -> (r: Result<(), Error>)
        ensures
            match r {
                Ok(()) => spec_message_write_result(self@) == Ok::<(), ErrorV>(()) && final(out)@
                    == old(out)@ + spec_encode_message(self@),
                Err(e) => spec_message_write_result(self@) == Err::<(), ErrorV>(e@) && final(out)@
                    == old(out)@,
            },
    {
        proof {
            use_type_invariant(self);
        }
        let ghost m = self@;
        let mut total: u128 = 34 + self.payload.len() as u128;
        let mut i: usize = 0;
        proof {
            lemma_ies_len_nonneg(m.extras);
            assert(m.extras.take(0) =~= Seq::empty());
        }
        while i < self.information_elements.len()
            invariant
                i <= self.information_elements@.len(),
                m == self@,
                m.wf(),
                total == 34 + m.payload.len() + spec_ies_len(m.extras.take(i as int)),
                total <= 34 + usize::MAX + 14 * i,
            decreases self.information_elements@.len() - i,
        {
            let ie = &self.information_elements[i];
            let ghost iev = m.extras[i as int];
            proof {
                assert(iev == ie@);
                assert(spec_ie_len(iev) == 14);
                lemma_ies_len_push(m.extras.take(i as int), iev);
                assert(m.extras.take(i + 1) =~= m.extras.take(i as int).push(iev));
            }
            let el = ie.len();
            total = total + el as u128;
            i = i + 1;
        }
        proof {
            assert(m.extras.take(m.extras.len() as int) =~= m.extras);
            lemma_overall_len_parts(m);
            assert(total == spec_overall_len(m));
        }
        if total > 65535 {
            let clipped: usize = if total > usize::MAX as u128 {
                usize::MAX
            } else {
                total as usize
            };
            return Err(Error::OverallMessageLength(clipped));
        }
        if self.header.time_of_session < 0 {
            return Err(Error::NegativeTimestamp(self.header.time_of_session));
        }
        if self.header.time_of_session > u32::MAX as i64 {
            return Err(Error::InvalidTimeOfSession);
        }
        out.push(PROTOCOL_REVISION_NUMBER);
        crate::bytes::put_u16(out, total as u16);
        let ghost prelude = old(out)@ + seq![1u8] + be16_bytes(spec_overall_len(m) as u16);
        match write_header_ie(&self.header, out) {
            Ok(()) => {},
            Err(e) => {
                proof {
                    assert(false);
                }
                return Err(e);
            },
        }
        match write_payload_ie(&self.payload, out) {
            Ok(()) => {},
            Err(e) => {
                proof {
                    assert(m.payload.len() + 34 <= 65535);
                    assert(false);
                }
                return Err(e);
            },
        }
        let ghost header_ie = InformationElementV::Header(m.header);
        let ghost payload_ie = InformationElementV::Payload(m.payload);
        let mut j: usize = 0;
        proof {
            assert(spec_encode_ies(m.extras.take(0)) =~= Seq::empty());
            assert(out@ =~= prelude + spec_encode_ie(header_ie) + spec_encode_ie(payload_ie)
                + spec_encode_ies(m.extras.take(0)));
        }
        while j < self.information_elements.len()
            invariant
                j <= self.information_elements@.len(),
                m == self@,
                m.wf(),
                prelude == old(out)@ + seq![1u8] + be16_bytes(spec_overall_len(m) as u16),
                out@ =~= prelude + spec_encode_ie(header_ie) + spec_encode_ie(payload_ie)
                    + spec_encode_ies(m.extras.take(j as int)),
            decreases self.information_elements@.len() - j,
        {
            let ie = &self.information_elements[j];
            let ghost iev = m.extras[j as int];
            match ie {
                InformationElement::LocationInformation(l) => {
                    write_location_ie(l, out);
                },
                _ => {
                    proof {
                        assert(false);
                    }
                },
            }
            proof {
                lemma_encode_ies_push(m.extras.take(j as int), iev);
                assert(m.extras.take(j + 1) =~= m.extras.take(j as int).push(iev));
            }
            j = j + 1;
        }
        proof {
            assert(m.extras.take(m.extras.len() as int) =~= m.extras);
            let ies = spec_message_ies(m);
            let s1 = ies.skip(1);
            assert(s1 =~= seq![payload_ie] + m.extras);
            assert(s1.skip(1) =~= m.extras);
            assert(ies[0] == header_ie);
            assert(s1[0] == payload_ie);
            assert(spec_encode_ies(ies) == spec_encode_ie(header_ie) + spec_encode_ies(s1));
            assert(spec_encode_ies(s1) == spec_encode_ie(payload_ie) + spec_encode_ies(m.extras));
            assert(out@ =~= old(out)@ + spec_encode_message(m));
        }
        Ok(())
    }

    /// Returns this message's auto id, the gateway's call-record reference.
    pub fn auto_id(&self) -> (r: u32)
        ensures
            r == self@.header.auto_id,
    {
        self.header.auto_id
    }

    /// Returns this message's session status.
    pub fn session_status(&self) -> (r: crate::mo::SessionStatus)
        ensures
            r == self@.header.session_status,
    {
        self.header.session_status
    }

    /// Returns this message's mobile-originated message sequence number.
    pub fn momsn(&self) -> (r: u16)
        ensures
            r == self@.header.momsn,
    {
        self.header.momsn
    }

    /// Returns this message's mobile-terminated message sequence number.
    pub fn mtmsn(&self) -> (r: u16)
        ensures
            r == self@.header.mtmsn,
    {
        self.header.mtmsn
    }

    /// Returns this message's time of session, in seconds since the Unix
    /// epoch.
    pub fn time_of_session(&self) -> (r: i64)
        ensures
            r == self@.header.time_of_session,
    {
        self.header.time_of_session
    }

    /// Returns this message's payload.
    pub fn payload(&self) -> (r: &Vec<u8>)
        ensures
            r@ == self@.payload,
    {
        &self.payload
    }

    /// Returns this message's further information elements, in arrival
    /// order.
    pub fn information_elements(&self) -> (r: &Vec<InformationElement>)
        ensures
            spec_views(r@) == self@.extras,
    {
        &self.information_elements
    }

    /// Returns this message's device id as a string of fifteen characters.
    ///
    /// The wire format specifies the device id as ASCII digits; a message
    /// whose id bytes are not ASCII has no string form, so those bytes are
    /// required here.
    pub fn imei(&self) -> (r: &str)
        requires
            forall|i: int| 0 <= i < 15 ==> self@.header.imei[i] < 128,
        ensures
            r@.len() == 15,
            forall|i: int| 0 <= i < 15 ==> r@[i] == self@.header.imei[i] as char,
    {
        proof {
            assert(self.header.imei@ == self@.header.imei);
            assert(self.header.imei@.len() == 15);
        }
        ascii_to_str(self.header.imei.as_slice())
    }

    /// Returns this message's header fields.
    pub fn header(&self) -> (r: &Header)
        ensures
            r@ == self@.header,
    {
        &self.header
    }
}

/// Relies on std's `str::from_utf8`: a run of ASCII bytes is valid UTF-8 and
/// views as exactly those bytes as characters.
#[verifier::external_body]
fn ascii_to_str(bytes: &[u8]) -> (r: &str)
    requires
        forall|i: int| 0 <= i < bytes@.len() ==> bytes@[i] < 128,
    ensures
        r@.len() == bytes@.len(),
        forall|i: int| 0 <= i < bytes@.len() ==> r@[i] == bytes@[i] as char,
{
    core::str::from_utf8(bytes).unwrap()
}

impl Clone for Message {
    /// The clone holds the same message.
    fn clone(&self) -> (r: Self)
        ensures
            r@ == self@,
    {
        proof {
            use_type_invariant(self);
        }
        let mut payload: Vec<u8> = Vec::new();
        let mut i: usize = 0;
        while i < self.payload.len()
            invariant
                i <= self.payload@.len(),
                payload@ =~= self.payload@.subrange(0, i as int),
            decreases self.payload@.len() - i,
        {
            payload.push(self.payload[i]);
            i = i + 1;
        }
        let mut extras: Vec<InformationElement> = Vec::new();
        let mut j: usize = 0;
        while j < self.information_elements.len()
            invariant
                j <= self.information_elements@.len(),
                spec_views(extras@) =~= spec_views(self.information_elements@).subrange(
                    0,
                    j as int,
                ),
            decreases self.information_elements@.len() - j,
        {
            let ghost pre = extras@;
            let cloned_ie = self.information_elements[j].clone();
            let ghost cv = cloned_ie@;
            extras.push(cloned_ie);
            proof {
                let sv = spec_views(self.information_elements@);
                assert(cv == self.information_elements@[j as int]@);
                assert(sv[j as int] == self.information_elements@[j as int]@);
                assert(spec_views(pre).len() == pre.len());
                assert(pre.len() == j);
                assert(extras@.len() == j + 1);
                assert(extras@[j as int]@ == cv);
                assert(spec_views(extras@) =~= sv.subrange(0, j + 1)) by {
                    assert(forall|k: int|
                        0 <= k < extras@.len() ==> #[trigger] spec_views(extras@)[k]
                            == extras@[k]@);
                    assert(forall|k: int|
                        0 <= k < pre.len() ==> #[trigger] pre[k]@ == spec_views(pre)[k]);
                }
            }
            j = j + 1;
        }
        proof {
            assert(payload@ =~= self.payload@);
            assert(spec_views(extras@) =~= spec_views(self.information_elements@));
        }
        Message { header: self.header, payload, information_elements: extras }
    }
}

impl PartialEq for Message {
    /// Two messages are equal when every field of their images is equal.
    fn eq(&self, other: &Self) -> (r: bool)
        ensures
            r == (self@ == other@),
    {
        if !self.header.same_as(&other.header) {
            return false;
        }
        if !(self.payload == other.payload) {
            return false;
        }
        if self.information_elements.len() != other.information_elements.len() {
            proof {
                assert(self@.extras.len() != other@.extras.len());
            }
            return false;
        }
        let mut i: usize = 0;
        while i < self.information_elements.len()
            invariant
                i <= self.information_elements@.len(),
                self.information_elements@.len() == other.information_elements@.len(),
                self@.header == other@.header,
                self@.payload == other@.payload,
                forall|k: int| 0 <= k < i ==> self@.extras[k] == other@.extras[k],
            decreases self.information_elements@.len() - i,
        {
            if !ie_same(&self.information_elements[i], &other.information_elements[i]) {
                proof {
                    assert(self@.extras[i as int] != other@.extras[i as int]);
                }
                return false;
            }
            i = i + 1;
        }
        proof {
            assert(self@.extras =~= other@.extras);
        }
        true
    }
}

impl vstd::std_specs::cmp::PartialEqSpecImpl for Message {
    open spec fn obeys_eq_spec() -> bool {
        true
    }

    open spec fn eq_spec(&self, other: &Self) -> bool {
        self@ == other@
    }
}

/// Returns true if the two elements hold the same image.
fn ie_same(a: &InformationElement, b: &InformationElement) -> (r: bool)
    ensures
        r == (a@ == b@),
{
    match a {
        InformationElement::Header(x) => match b {
            InformationElement::Header(y) => x.same_as(y),
            _ => false,
        },
        InformationElement::Payload(x) => match b {
            InformationElement::Payload(y) => {
                let r = x == y;
                proof {
                    if r {
                        assert(x@ =~= y@);
                    } else {
                        if x@ == y@ {
                            assert(x@.len() == y@.len());
                            assert(forall|k: int| 0 <= k < x@.len() ==> x@[k] == y@[k]);
                            assert(r);
                        }
                    }
                }
                r
            },
            _ => false,
        },
        InformationElement::LocationInformation(x) => match b {
            InformationElement::LocationInformation(y) => {
                let mut i: usize = 0;
                while i < 11
                    invariant
                        i <= 11,
                        a@ == InformationElementV::LocationInformation(x@),
                        b@ == InformationElementV::LocationInformation(y@),
                        forall|k: int| 0 <= k < i ==> x@[k] == y@[k],
                    decreases 11 - i,
                {
                    if x[i] != y[i] {
                        return false;
                    }
                    i = i + 1;
                }
                proof {
                    assert(x@ =~= y@);
                }
                true
            },
            _ => false,
        },
    }
}

impl PartialOrd for Message {
    /// Messages order by time of session alone; messages whose times are
    /// equal compare as equal here even when their contents differ.
    fn partial_cmp(&self, other: &Self) -> (r: Option<core::cmp::Ordering>) {
        if self.header.time_of_session < other.header.time_of_session {
            Some(core::cmp::Ordering::Less)
        } else if self.header.time_of_session > other.header.time_of_session {
            Some(core::cmp::Ordering::Greater)
        } else {
            Some(core::cmp::Ordering::Equal)
        }
    }
}

impl vstd::std_specs::cmp::PartialOrdSpecImpl for Message {
    open spec fn obeys_partial_cmp_spec() -> bool {
        true
    }

    open spec fn partial_cmp_spec(&self, other: &Self) -> Option<core::cmp::Ordering> {
        if self@.header.time_of_session < other@.header.time_of_session {
            Some(core::cmp::Ordering::Less)
        } else if self@.header.time_of_session > other@.header.time_of_session {
            Some(core::cmp::Ordering::Greater)
        } else {
            Some(core::cmp::Ordering::Equal)
        }
    }
}

} // verus!
