//! The header element of a mobile-terminated message.

use crate::bytes::be16_bytes;
use crate::bytes::be16_val;
use crate::bytes::be32_bytes;
use crate::bytes::be32_val;
use crate::bytes::get_u16;
use crate::bytes::get_u32;
use crate::bytes::lemma_be16_roundtrip;
use crate::bytes::lemma_be32_roundtrip;
use crate::bytes::put_u16;
use crate::bytes::put_u32;
use crate::Error;
use crate::ErrorV;
use vstd::prelude::*;

verus! {

/// The disposition flags of a mobile-terminated header: five independent
/// switches packed into bits 0, 1, 3, 4 and 5 of a 16-bit field. Bit 2 and
/// everything above bit 5 are unused; decoding ignores them and encoding
/// leaves them clear.
#[derive(Clone, Copy, Debug, PartialEq, Eq, Structural)]
pub struct DispositionFlags {
    /// Delete every payload queued for the device (bit 0).
    pub flush_queue: bool,
    /// Send a ring alert with no associated payload (bit 1).
    pub send_ring_alert: bool,
    /// Update the device location with the given values (bit 3).
    pub update_location: bool,
    /// Place the associated payload at the front of the queue (bit 4).
    pub high_priority: bool,
    /// Use the client message id as the MTMSN (bit 5).
    pub assign_mtmsn: bool,
}

/// The flags a 16-bit field names; every unused bit is ignored.
pub open spec fn spec_decode_flags(code: u16) -> DispositionFlags {
    DispositionFlags {
        flush_queue: code & 1 != 0,
        send_ring_alert: code & 2 != 0,
        update_location: code & 8 != 0,
        high_priority: code & 16 != 0,
        assign_mtmsn: code & 32 != 0,
    }
}

/// The 16-bit field that carries exactly the five flags, every other bit
/// clear.
pub open spec fn spec_encode_flags(flags: DispositionFlags) -> u16 {
    ((if flags.assign_mtmsn {
        32int
    } else {
        0int
    }) + (if flags.high_priority {
        16int
    } else {
        0int
    }) + (if flags.update_location {
        8int
    } else {
        0int
    }) + (if flags.send_ring_alert {
        2int
    } else {
        0int
    }) + (if flags.flush_queue {
        1int
    } else {
        0int
    })) as u16
}

/// Decoding an encoded set of flags gives the flags back: the encoder never
/// sets a bit the decoder ignores.
pub proof fn lemma_flags_round_trip(flags: DispositionFlags)
    ensures
        spec_decode_flags(spec_encode_flags(flags)) == flags,
{
    let am: u16 = if flags.assign_mtmsn {
        1
    } else {
        0
    };
    let hp: u16 = if flags.high_priority {
        1
    } else {
        0
    };
    let ul: u16 = if flags.update_location {
        1
    } else {
        0
    };
    let ra: u16 = if flags.send_ring_alert {
        1
    } else {
        0
    };
    let fq: u16 = if flags.flush_queue {
        1
    } else {
        0
    };
    let e = spec_encode_flags(flags);
    assert(e == 32 * am + 16 * hp + 8 * ul + 2 * ra + fq);
    assert((e & 1 != 0) == (fq == 1) && (e & 2 != 0) == (ra == 1) && (e & 8 != 0) == (ul == 1) && (
    e & 16 != 0) == (hp == 1) && (e & 32 != 0) == (am == 1)) by (bit_vector)
        requires
            e == 32 * am + 16 * hp + 8 * ul + 2 * ra + fq,
            am <= 1,
            hp <= 1,
            ul <= 1,
            ra <= 1,
            fq <= 1,
    ;
}

/// Re-encoding decoded flags keeps exactly the five meaningful bits.
pub proof fn lemma_flags_decode_encode(code: u16)
    ensures
        spec_encode_flags(spec_decode_flags(code)) == code & 59,
{
    let am: u16 = if code & 32 != 0 {
        1
    } else {
        0
    };
    let hp: u16 = if code & 16 != 0 {
        1
    } else {
        0
    };
    let ul: u16 = if code & 8 != 0 {
        1
    } else {
        0
    };
    let ra: u16 = if code & 2 != 0 {
        1
    } else {
        0
    };
    let fq: u16 = if code & 1 != 0 {
        1
    } else {
        0
    };
    assert(spec_encode_flags(spec_decode_flags(code)) == 32 * am + 16 * hp + 8 * ul + 2 * ra + fq);
    assert(32 * am + 16 * hp + 8 * ul + 2 * ra + fq == code & 59) by (bit_vector)
        requires
            am == (if code & 32 != 0 {
                1u16
            } else {
                0u16
            }),
            hp == (if code & 16 != 0 {
                1u16
            } else {
                0u16
            }),
            ul == (if code & 8 != 0 {
                1u16
            } else {
                0u16
            }),
            ra == (if code & 2 != 0 {
                1u16
            } else {
                0u16
            }),
            fq == (if code & 1 != 0 {
                1u16
            } else {
                0u16
            }),
    ;
}

impl DispositionFlags {
    /// Decodes a 16-bit field into its flags; unused bits are ignored.
    pub fn decode(code: u16) -> (r: DispositionFlags)
        ensures
            r == spec_decode_flags(code),
    {
        DispositionFlags {
            flush_queue: code & 1 != 0,
            send_ring_alert: code & 2 != 0,
            update_location: code & 8 != 0,
            high_priority: code & 16 != 0,
            assign_mtmsn: code & 32 != 0,
        }
    }

    /// Encodes the flags into a 16-bit field with every unused bit clear.
    pub fn encode(&self) -> (r: u16)
        ensures
            r == spec_encode_flags(*self),
    {
        let am: u16 = if self.assign_mtmsn {
            32
        } else {
            0
        };
        let hp: u16 = if self.high_priority {
            16
        } else {
            0
        };
        let ul: u16 = if self.update_location {
            8
        } else {
            0
        };
        let ra: u16 = if self.send_ring_alert {
            2
        } else {
            0
        };
        let fq: u16 = if self.flush_queue {
            1
        } else {
            0
        };
        am + hp + ul + ra + fq
    }

    /// Appends the two big-endian bytes of the encoded flags.
    pub fn write(&self, wtr: &mut Vec<u8>) -> (r: usize)
        ensures
            final(wtr)@ == old(wtr)@ + be16_bytes(spec_encode_flags(*self)),
            r == 2,
    {
        put_u16(wtr, self.encode());
        2
    }
}

/// The 24 bytes of a mobile-terminated header element: tag 0x41, length 21,
/// client message id, device id, disposition flags.
pub open spec fn spec_encode_mt_header(h: Header) -> Seq<u8> {
    seq![0x41u8] + be16_bytes(21) + be32_bytes(h.client_msg_id) + h.imei@ + be16_bytes(
        spec_encode_flags(h.disposition_flags),
    )
}

/// A mobile-terminated header.
///
/// A fixed-layout information element of 24 bytes under tag 0x41. The
/// client message id comes back in the gateway's confirmation; when the
/// assign-MTMSN flag is set it is taken as the MTMSN of the payload.
#[derive(Clone, Copy, Debug, PartialEq, Eq)]
pub struct Header {
    /// The client's own id for this message.
    pub client_msg_id: u32,
    /// The destination device id: fifteen ASCII digits.
    pub imei: [u8; 15],
    /// The actions requested of the gateway.
    pub disposition_flags: DispositionFlags,
}

impl Header {
    /// Returns the fully-encoded size of this element, always 24: the
    /// 3-byte element header plus the 21 content bytes.
    pub fn len(&self) -> (r: usize)
        ensures
            r == 24,
    {
        24
    }

    /// Reads a header from the front of `bytes`; trailing bytes are left
    /// alone.
    ///
    /// The bytes are rejected when the tag is not 0x41, when the declared
    /// length is not 21, or when the input ends before the layout is
    /// complete.
    pub fn read_from(bytes: &[u8]) -> (r: Result<Header, Error>)
        ensures
            match r {
                Ok(h) => bytes@.len() >= 24 && bytes@[0] == 0x41 && be16_val(bytes@[1], bytes@[2])
                    == 21 && h.client_msg_id == be32_val(
                    bytes@[3],
                    bytes@[4],
                    bytes@[5],
                    bytes@[6],
                ) && h.imei@ == bytes@.subrange(7, 22) && h.disposition_flags == spec_decode_flags(
                    be16_val(bytes@[22], bytes@[23]),
                ),
                Err(e) => e@ == (if bytes@.len() < 1 {
                    ErrorV::Undersized
                } else if bytes@[0] != 0x41 {
                    ErrorV::InvalidInformationElementIdentifier(bytes@[0])
                } else if bytes@.len() < 3 {
                    ErrorV::Undersized
                } else if be16_val(bytes@[1], bytes@[2]) < 21 {
                    ErrorV::Undersized
                } else if be16_val(bytes@[1], bytes@[2]) > 21 {
                    ErrorV::Oversized
                } else {
                    ErrorV::Undersized
                }) && (bytes@.len() >= 24 ==> bytes@[0] != 0x41 || be16_val(bytes@[1], bytes@[2])
                    != 21),
            },
    {
        if bytes.len() < 1 {
            return Err(Error::Undersized);
        }
        if bytes[0] != 0x41 {
            return Err(Error::InvalidInformationElementIdentifier(bytes[0]));
        }
        if bytes.len() < 3 {
            return Err(Error::Undersized);
        }
        let declared = get_u16(bytes, 1);
        if declared < 21 {
            return Err(Error::Undersized);
        }
        if declared > 21 {
            return Err(Error::Oversized);
        }
        if bytes.len() < 24 {
            return Err(Error::Undersized);
        }
        let client_msg_id = get_u32(bytes, 3);
        let imei: [u8; 15] = [
            bytes[7],
            bytes[8],
            bytes[9],
            bytes[10],
            bytes[11],
            bytes[12],
            bytes[13],
            bytes[14],
            bytes[15],
            bytes[16],
            bytes[17],
            bytes[18],
            bytes[19],
            bytes[20],
            bytes[21],
        ];
        let disposition_flags = DispositionFlags::decode(get_u16(bytes, 22));
        let header = Header { client_msg_id, imei, disposition_flags };
        proof {
            assert(header.imei@ =~= bytes@.subrange(7, 22));
        }
        Ok(header)
    }

    /// Appends the 24 bytes of this header and returns how many were
    /// appended.
    pub fn write(&self, wtr: &mut Vec<u8>) -> (r: Result<usize, Error>)
        ensures
            r == Ok::<usize, Error>(24usize),
            final(wtr)@ == old(wtr)@ + spec_encode_mt_header(*self),
    {
        wtr.push(0x41);
        put_u16(wtr, 21);
        put_u32(wtr, self.client_msg_id);
        let mut i: usize = 0;
        while i < 15
            invariant
                i <= 15,
                wtr@ =~= old(wtr)@ + seq![0x41u8] + be16_bytes(21) + be32_bytes(self.client_msg_id)
                    + self.imei@.subrange(0, i as int),
            decreases 15 - i,
        {
            wtr.push(self.imei[i]);
            i = i + 1;
        }
        self.disposition_flags.write(wtr);
        proof {
            assert(self.imei@.subrange(0, 15) =~= self.imei@);
            assert(wtr@ =~= old(wtr)@ + spec_encode_mt_header(*self));
        }
        Ok(24)
    }

    /// Returns the 24 bytes of this header.
    pub fn to_vec(&self) -> (r: Vec<u8>)
        ensures
            r@ == spec_encode_mt_header(*self),
    {
        let mut buffer: Vec<u8> = Vec::new();
        let result = self.write(&mut buffer);
        proof {
            assert(result is Ok);
        }
        buffer
    }
}

/// Round trip: reading back a written header yields the same header.
pub proof fn lemma_mt_header_round_trip(h: Header)
    ensures
        ({
            let b = spec_encode_mt_header(h);
            &&& b.len() == 24
            &&& b[0] == 0x41
            &&& be16_val(b[1], b[2]) == 21
            &&& be32_val(b[3], b[4], b[5], b[6]) == h.client_msg_id
            &&& b.subrange(7, 22) == h.imei@
            &&& spec_decode_flags(be16_val(b[22], b[23])) == h.disposition_flags
        }),
{
    let b = spec_encode_mt_header(h);
    lemma_be16_roundtrip(21);
    lemma_be32_roundtrip(h.client_msg_id);
    lemma_be16_roundtrip(spec_encode_flags(h.disposition_flags));
    assert(b.subrange(7, 22) =~= h.imei@);
    assert(b[22] == be16_bytes(spec_encode_flags(h.disposition_flags))[0]);
    assert(b[23] == be16_bytes(spec_encode_flags(h.disposition_flags))[1]);
    lemma_flags_round_trip(h.disposition_flags);
}

} // verus!
