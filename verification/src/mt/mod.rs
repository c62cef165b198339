//! Building mobile-terminated (MT) SBD messages.
//!
//! A mobile-terminated message travels from a client through the gateway to
//! a device. It is framed like its mobile-originated counterpart: a
//! revision byte, a 16-bit overall length, and a run of information
//! elements, here the MT header (tag 0x41), the MT payload (tag 0x42), and
//! the confirmation (tag 0x44).

mod confirmation;
mod header;

use crate::bytes::be16_bytes;
use crate::bytes::put_u16;
use crate::Error;
use crate::ErrorV;
use vstd::prelude::*;

pub use self::confirmation::lemma_confirmation_round_trip;
pub use self::confirmation::spec_decode_status;
pub use self::confirmation::spec_encode_confirmation;
pub use self::confirmation::Confirmation;
pub use self::confirmation::MessageStatus;
pub use self::header::lemma_flags_decode_encode;
pub use self::header::lemma_flags_round_trip;
pub use self::header::lemma_mt_header_round_trip;
pub use self::header::spec_decode_flags;
pub use self::header::spec_encode_flags;
pub use self::header::spec_encode_mt_header;
pub use self::header::DispositionFlags;
pub use self::header::Header;

verus! {

/// A mobile-terminated payload.
///
/// The gateway accepts payloads of 1 through 1890 bytes; this codec does
/// not enforce that range, only the 16-bit length field.
#[derive(Debug)]
pub struct Payload {
    /// The payload bytes.
    pub payload: Vec<u8>,
}

/// The encoding of a payload element: tag 0x42, length, bytes.
pub open spec fn spec_encode_mt_payload(p: Seq<u8>) -> Seq<u8>
    recommends
        p.len() <= 65535,
{
    seq![0x42u8] + be16_bytes(p.len() as u16) + p
}

impl Payload {
    /// Returns the fully-encoded size of this element: the 3-byte element
    /// header plus the payload bytes.
    pub fn len(&self) -> (r: usize)
        requires
            self.payload@.len() + 3 <= usize::MAX,
        ensures
            r == self.payload@.len() + 3,
    {
        3 + self.payload.len()
    }

    /// Appends this element as tag, length, and bytes, and returns how many
    /// bytes were appended.
    ///
    /// A payload longer than 65535 bytes does not fit the 16-bit length
    /// field and is rejected with [`Error::PayloadTooLong`]; nothing is
    /// appended then.
    pub fn write(&self, wtr: &mut Vec<u8>) -> (r: Result<usize, Error>)
        ensures
            match r {
                Ok(n) => self.payload@.len() <= 65535 && n == 3 + self.payload@.len()
                    && final(wtr)@ == old(wtr)@ + spec_encode_mt_payload(self.payload@),
                Err(e) => self.payload@.len() > 65535 && e == Error::PayloadTooLong(
                    self.payload@.len() as usize,
                ) && final(wtr)@ == old(wtr)@,
            },
    {
        if self.payload.len() > 65535 {
            return Err(Error::PayloadTooLong(self.payload.len()));
        }
        wtr.push(0x42);
        put_u16(wtr, self.payload.len() as u16);
        let mut i: usize = 0;
        while i < self.payload.len()
            invariant
                i <= self.payload@.len(),
                self.payload@.len() <= 65535,
                wtr@ =~= old(wtr)@ + seq![0x42u8] + be16_bytes(self.payload@.len() as u16)
                    + self.payload@.subrange(0, i as int),
            decreases self.payload@.len() - i,
        {
            wtr.push(self.payload[i]);
            i = i + 1;
        }
        proof {
            assert(self.payload@.subrange(0, self.payload@.len() as int) =~= self.payload@);
            assert(wtr@ =~= old(wtr)@ + spec_encode_mt_payload(self.payload@));
        }
        Ok(3 + self.payload.len())
    }
}

/// A mobile-terminated information element.
#[derive(Debug)]
pub enum InformationElement {
    /// The message header.
    H(Header),
    /// The message payload.
    P(Payload),
    /// A confirmation.
    C(Confirmation),
}

/// The fully-encoded size of a mobile-terminated element.
pub open spec fn spec_mt_ie_len(ie: InformationElement) -> int {
    match ie {
        InformationElement::H(_) => 24,
        InformationElement::P(p) => 3 + p.payload@.len() as int,
        InformationElement::C(_) => 28,
    }
}

/// The encoding of a mobile-terminated element.
pub open spec fn spec_encode_mt_ie(ie: InformationElement) -> Seq<u8> {
    match ie {
        InformationElement::H(h) => spec_encode_mt_header(h),
        InformationElement::P(p) => spec_encode_mt_payload(p.payload@),
        InformationElement::C(c) => spec_encode_confirmation(c),
    }
}

/// The summed encoded sizes of a run of mobile-terminated elements.
pub open spec fn spec_mt_ies_len(ies: Seq<InformationElement>) -> int
    decreases ies.len(),
{
    if ies.len() == 0 {
        0
    } else {
        spec_mt_ie_len(ies[0]) + spec_mt_ies_len(ies.skip(1))
    }
}

/// The concatenated encodings of a run of mobile-terminated elements.
pub open spec fn spec_encode_mt_ies(ies: Seq<InformationElement>) -> Seq<u8>
    decreases ies.len(),
{
    if ies.len() == 0 {
        Seq::empty()
    } else {
        spec_encode_mt_ie(ies[0]) + spec_encode_mt_ies(ies.skip(1))
    }
}

/// The full encoding of a mobile-terminated message: revision byte, overall
/// length, elements.
pub open spec fn spec_encode_mt_message(ies: Seq<InformationElement>) -> Seq<u8>
    recommends
        spec_mt_ies_len(ies) <= 65535,
{
    seq![1u8] + be16_bytes(spec_mt_ies_len(ies) as u16) + spec_encode_mt_ies(ies)
}

/// Appending one element adds its size to the summed size.
pub proof fn lemma_mt_ies_len_push(ies: Seq<InformationElement>, ie: InformationElement)
    ensures
        spec_mt_ies_len(ies.push(ie)) == spec_mt_ies_len(ies) + spec_mt_ie_len(ie),
    decreases ies.len(),
{
    if ies.len() == 0 {
        assert(ies.push(ie).skip(1) =~= Seq::empty());
        assert(spec_mt_ies_len(Seq::<InformationElement>::empty()) == 0);
        assert(ies.push(ie)[0] == ie);
    } else {
        assert(ies.push(ie).skip(1) =~= ies.skip(1).push(ie));
        lemma_mt_ies_len_push(ies.skip(1), ie);
        assert(ies.push(ie)[0] == ies[0]);
        assert(spec_mt_ies_len(ies.skip(1).push(ie)) == spec_mt_ies_len(ies.skip(1))
            + spec_mt_ie_len(ie));
    }
}

/// Appending one element appends its encoding.
pub proof fn lemma_encode_mt_ies_push(ies: Seq<InformationElement>, ie: InformationElement)
    ensures
        spec_encode_mt_ies(ies.push(ie)) =~= spec_encode_mt_ies(ies) + spec_encode_mt_ie(ie),
    decreases ies.len(),
{
    if ies.len() == 0 {
        assert(ies.push(ie).skip(1) =~= Seq::empty());
        assert(spec_encode_mt_ies(Seq::<InformationElement>::empty()) =~= Seq::<u8>::empty());
        assert(ies.push(ie)[0] == ie);
        assert(spec_encode_mt_ies(ies) =~= Seq::empty());
    } else {
        assert(ies.push(ie).skip(1) =~= ies.skip(1).push(ie));
        lemma_encode_mt_ies_push(ies.skip(1), ie);
        assert(ies.push(ie)[0] == ies[0]);
        assert(spec_encode_mt_ies(ies.skip(1).push(ie)) =~= spec_encode_mt_ies(ies.skip(1))
            + spec_encode_mt_ie(ie));
    }
}

/// Every element's size is at least 3 and at most the whole run's sum.
pub proof fn lemma_mt_ies_len_bounds(ies: Seq<InformationElement>)
    ensures
        spec_mt_ies_len(ies) >= 0,
        forall|i: int|
            0 <= i < ies.len() ==> spec_mt_ie_len(#[trigger] ies[i]) <= spec_mt_ies_len(ies),
    decreases ies.len(),
{
    if ies.len() > 0 {
        lemma_mt_ies_len_bounds(ies.skip(1));
        assert(spec_mt_ie_len(ies[0]) >= 3);
        assert forall|i: int|
            0 <= i < ies.len() implies spec_mt_ie_len(#[trigger] ies[i]) <= spec_mt_ies_len(
            ies,
        ) by {
            if i > 0 {
                assert(ies[i] == ies.skip(1)[i - 1]);
            }
        }
    }
}

impl InformationElement {
    /// Returns the fully-encoded size of this element.
    pub fn len(&self) -> (r: usize)
        requires
            spec_mt_ie_len(*self) <= usize::MAX,
        ensures
            r == spec_mt_ie_len(*self),
    {
        match self {
            InformationElement::H(element) => element.len(),
            InformationElement::P(element) => element.len(),
            InformationElement::C(element) => element.len(),
        }
    }

    /// Appends this element's encoding and returns how many bytes were
    /// appended; a payload beyond its 16-bit length field is rejected with
    /// nothing appended.
    pub fn write(&self, wtr: &mut Vec<u8>) -> (r: Result<usize, Error>)
        ensures
            match r {
                Ok(n) => n == spec_mt_ie_len(*self) && final(wtr)@ == old(wtr)@
                    + spec_encode_mt_ie(*self),
                Err(e) => final(wtr)@ == old(wtr)@ && (match self {
                    InformationElement::P(p) => p.payload@.len() > 65535 && e
                        == Error::PayloadTooLong(p.payload@.len() as usize),
                    _ => false,
                }),
            },
    {
        match self {
            InformationElement::H(element) => element.write(wtr),
            InformationElement::P(element) => element.write(wtr),
            InformationElement::C(element) => element.write(wtr),
        }
    }
}

/// A whole mobile-terminated message: its elements in order.
#[derive(Debug)]
pub struct MTMessage {
    /// The message's information elements, in the order they are written.
    pub elements: Vec<InformationElement>,
}

impl MTMessage {
    /// Writes this message: revision byte 1, the summed element sizes as the
    /// overall length, then each element in order. Returns how many bytes
    /// were appended in all.
    ///
    /// On an error nothing is appended: a summed size beyond 65535 is
    /// rejected with [`Error::OverallMessageLength`] carrying that size
    /// (clipped to what a `usize` holds).
    pub fn write(&self, wtr: &mut Vec<u8>) -> (r: Result<usize, Error>)
        ensures
            match r {
                Ok(n) => spec_mt_ies_len(self.elements@) <= 65535 && n == 3 + spec_mt_ies_len(
                    self.elements@,
                ) && final(wtr)@ == old(wtr)@ + spec_encode_mt_message(self.elements@),
                Err(e) => spec_mt_ies_len(self.elements@) > 65535 && final(wtr)@ == old(wtr)@ && e@
                    == ErrorV::OverallMessageLength(
                    crate::mo::spec_clip_len(spec_mt_ies_len(self.elements@)),
                ),
            },
    {
        let ghost all = self.elements@;
        let mut total: u128 = 0;
        let mut i: usize = 0;
        proof {
            assert(all.take(0) =~= Seq::empty());
            assert(spec_mt_ies_len(Seq::<InformationElement>::empty()) == 0);
        }
        while i < self.elements.len()
            invariant
                i <= self.elements@.len(),
                all == self.elements@,
                total as int == (if spec_mt_ies_len(all.take(i as int)) > usize::MAX {
                    usize::MAX as int
                } else {
                    spec_mt_ies_len(all.take(i as int))
                }),
                total <= usize::MAX as u128,
            decreases self.elements@.len() - i,
        {
            let ghost iev = all[i as int];
            let element_len: u128 = match &self.elements[i] {
                InformationElement::H(_) => 24,
                InformationElement::P(p) => 3 + p.payload.len() as u128,
                InformationElement::C(_) => 28,
            };
            proof {
                assert(element_len == spec_mt_ie_len(iev));
                lemma_mt_ies_len_push(all.take(i as int), iev);
                assert(all.take(i + 1) =~= all.take(i as int).push(iev));
                lemma_mt_ies_len_bounds(all.take(i as int));
            }
            let candidate = total + element_len;
            total = if candidate > usize::MAX as u128 {
                usize::MAX as u128
            } else {
                candidate
            };
            i = i + 1;
        }
        proof {
            assert(all.take(all.len() as int) =~= all);
            lemma_mt_ies_len_bounds(all);
        }
        if total > 65535 {
            proof {
                assert(spec_mt_ies_len(all) > 65535);
                assert(total as usize == crate::mo::spec_clip_len(spec_mt_ies_len(all)));
            }
            return Err(Error::OverallMessageLength(total as usize));
        }
        proof {
            assert(total == spec_mt_ies_len(all));
        }
        wtr.push(1);
        put_u16(wtr, total as u16);
        let ghost prelude = old(wtr)@ + seq![1u8] + be16_bytes(spec_mt_ies_len(all) as u16);
        let mut j: usize = 0;
        proof {
            assert(spec_encode_mt_ies(all.take(0)) =~= Seq::empty());
            assert(wtr@ =~= prelude + spec_encode_mt_ies(all.take(0)));
            lemma_mt_ies_len_bounds(all);
        }
        while j < self.elements.len()
            invariant
                j <= self.elements@.len(),
                all == self.elements@,
                spec_mt_ies_len(all) <= 65535,
                forall|k: int|
                    0 <= k < all.len() ==> spec_mt_ie_len(#[trigger] all[k]) <= spec_mt_ies_len(
                        all,
                    ),
                prelude == old(wtr)@ + seq![1u8] + be16_bytes(spec_mt_ies_len(all) as u16),
                wtr@ =~= prelude + spec_encode_mt_ies(all.take(j as int)),
            decreases self.elements@.len() - j,
        {
            let ghost iev = all[j as int];
            let result = self.elements[j].write(wtr);
            match result {
                Ok(_) => {},
                Err(e) => {
                    proof {
                        assert(spec_mt_ie_len(iev) <= 65535);
                        assert(false);
                    }
                    return Err(e);
                },
            }
            proof {
                lemma_encode_mt_ies_push(all.take(j as int), iev);
                assert(all.take(j + 1) =~= all.take(j as int).push(iev));
            }
            j = j + 1;
        }
        proof {
            assert(all.take(all.len() as int) =~= all);
            assert(wtr@ =~= old(wtr)@ + spec_encode_mt_message(all));
        }
        let written = 3 + total as usize;
        Ok(written)
    }
}

} // verus!
