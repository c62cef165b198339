//! The confirmation element of a mobile-terminated message.

use crate::bytes::be16_bytes;
use crate::bytes::be16_val;
use crate::bytes::be32_bytes;
use crate::bytes::be32_val;
use crate::bytes::get_u16;
use crate::bytes::get_u32;
use crate::bytes::i16_from_u16;
use crate::bytes::i16_of_u16;
use crate::bytes::lemma_be16_roundtrip;
use crate::bytes::lemma_be32_roundtrip;
use crate::bytes::lemma_i16_roundtrip;
use crate::bytes::put_u16;
use crate::bytes::put_u32;
use crate::bytes::u16_from_i16;
use crate::bytes::u16_of_i16;
use crate::Error;
use crate::ErrorV;
use vstd::prelude::*;

verus! {

/// The outcome the gateway reports for a submitted message.
///
/// A status of 0 through 50 is success, carrying the message's position in
/// the device's delivery queue; the named failures map the closed set of
/// negative codes.
#[derive(Clone, Copy, Debug, PartialEq, Eq, Structural)]
pub enum MessageStatus {
    /// Successful; the message holds this position in the queue.
    SuccessfulQueueOrder(u8),
    /// The device id has too few characters or non-numeric ones.
    InvalidIMEI,
    /// The device id is not provisioned on the gateway.
    UnknownIMEI,
    /// The payload exceeds the maximum allowed size.
    PayloadOversized,
    /// A payload was expected but none was received.
    PayloadMissing,
    /// The device's delivery queue is full.
    MTQueueFull,
    /// Gateway resources are unavailable.
    MTResourcesUnavailable,
    /// The submission violates the delivery protocol.
    ProtocolViolation,
    /// Ring alerts to the device are disabled.
    RingAlertsDisabled,
    /// The device is not attached and cannot receive ring alerts.
    SSDNotAttached,
    /// The source address was rejected by the gateway's filter.
    SourceAddressRejected,
    /// The MTMSN value is out of its valid range.
    MTMSNOutOfRange,
    /// The client certificate was rejected by the gateway's filter.
    CertificateRejected,
}

/// The status a signed code names, or the error that rejects it.
pub open spec fn spec_decode_status(status: i8) -> Result<MessageStatus, ErrorV> {
    if 0 <= status <= 50 {
        Ok(MessageStatus::SuccessfulQueueOrder(status as u8))
    } else if status == -1 {
        Ok(MessageStatus::InvalidIMEI)
    } else if status == -2 {
        Ok(MessageStatus::UnknownIMEI)
    } else if status == -3 {
        Ok(MessageStatus::PayloadOversized)
    } else if status == -4 {
        Ok(MessageStatus::PayloadMissing)
    } else if status == -5 {
        Ok(MessageStatus::MTQueueFull)
    } else if status == -6 {
        Ok(MessageStatus::MTResourcesUnavailable)
    } else if status == -7 {
        Ok(MessageStatus::ProtocolViolation)
    } else if status == -8 {
        Ok(MessageStatus::RingAlertsDisabled)
    } else if status == -9 {
        Ok(MessageStatus::SSDNotAttached)
    } else if status == -10 {
        Ok(MessageStatus::SourceAddressRejected)
    } else if status == -11 {
        Ok(MessageStatus::MTMSNOutOfRange)
    } else if status == -12 {
        Ok(MessageStatus::CertificateRejected)
    } else {
        Err(ErrorV::InvalidMessageStatus(status))
    }
}

impl MessageStatus {
    /// Decodes a signed status code.
    ///
    /// Returns an error if and only if the code is neither in 0 through 50
    /// nor one of the twelve named failures.
    pub fn decode(status: i8) -> (r: Result<MessageStatus, Error>)
        ensures
            match r {
                Ok(s) => spec_decode_status(status) == Ok::<MessageStatus, ErrorV>(s),
                Err(e) => spec_decode_status(status) == Err::<MessageStatus, ErrorV>(e@),
            },
    {
        if 0 <= status && status <= 50 {
            return Ok(MessageStatus::SuccessfulQueueOrder(status as u8));
        }
        match status {
            -1 => Ok(MessageStatus::InvalidIMEI),
            -2 => Ok(MessageStatus::UnknownIMEI),
            -3 => Ok(MessageStatus::PayloadOversized),
            -4 => Ok(MessageStatus::PayloadMissing),
            -5 => Ok(MessageStatus::MTQueueFull),
            -6 => Ok(MessageStatus::MTResourcesUnavailable),
            -7 => Ok(MessageStatus::ProtocolViolation),
            -8 => Ok(MessageStatus::RingAlertsDisabled),
            -9 => Ok(MessageStatus::SSDNotAttached),
            -10 => Ok(MessageStatus::SourceAddressRejected),
            -11 => Ok(MessageStatus::MTMSNOutOfRange),
            -12 => Ok(MessageStatus::CertificateRejected),
            _ => Err(Error::InvalidMessageStatus(status)),
        }
    }
}

/// The 28 bytes of a confirmation element: tag 0x44, length 25, client
/// message id, device id, id reference, and the status as a two's-complement
/// 16-bit value.
pub open spec fn spec_encode_confirmation(c: Confirmation) -> Seq<u8> {
    seq![0x44u8] + be16_bytes(25) + be32_bytes(c.client_msg_id) + c.imei@ + be32_bytes(
        c.id_reference,
    ) + be16_bytes(u16_of_i16(c.message_status))
}

/// A mobile-terminated confirmation.
///
/// A fixed-layout information element of 28 bytes under tag 0x44, sent back
/// to the client after a submission.
#[derive(Clone, Copy, Debug, PartialEq, Eq)]
pub struct Confirmation {
    /// The client's own id for the confirmed message.
    pub client_msg_id: u32,
    /// The device id of the destination: fifteen ASCII digits.
    pub imei: [u8; 15],
    /// The gateway's id for the message, zero when processing failed.
    pub id_reference: u32,
    /// The message's queue position, or a negative failure code.
    pub message_status: i16,
}

impl Confirmation {
    /// Returns the fully-encoded size of this element, always 28: the
    /// 3-byte element header plus the 25 content bytes.
    pub fn len(&self) -> (r: usize)
        ensures
            r == 28,
    {
        28
    }

    /// Reads a confirmation from the front of `bytes`; trailing bytes are
    /// left alone.
    ///
    /// The bytes are rejected when the tag is not 0x44, when the declared
    /// length is not 25, or when the input ends before the layout is
    /// complete.
    pub fn read_from(bytes: &[u8]) -> (r: Result<Confirmation, Error>)
        ensures
            match r {
                Ok(c) => bytes@.len() >= 28 && bytes@[0] == 0x44 && be16_val(bytes@[1], bytes@[2])
                    == 25 && c.client_msg_id == be32_val(
                    bytes@[3],
                    bytes@[4],
                    bytes@[5],
                    bytes@[6],
                ) && c.imei@ == bytes@.subrange(7, 22) && c.id_reference == be32_val(
                    bytes@[22],
                    bytes@[23],
                    bytes@[24],
                    bytes@[25],
                ) && c.message_status == i16_of_u16(be16_val(bytes@[26], bytes@[27])),
                Err(e) => e@ == (if bytes@.len() < 1 {
                    ErrorV::Undersized
                } else if bytes@[0] != 0x44 {
                    ErrorV::InvalidInformationElementIdentifier(bytes@[0])
                } else if bytes@.len() < 3 {
                    ErrorV::Undersized
                } else if be16_val(bytes@[1], bytes@[2]) < 25 {
                    ErrorV::Undersized
                } else if be16_val(bytes@[1], bytes@[2]) > 25 {
                    ErrorV::Oversized
                } else {
                    ErrorV::Undersized
                }) && (bytes@.len() >= 28 ==> bytes@[0] != 0x44 || be16_val(bytes@[1], bytes@[2])
                    != 25),
            },
    {
        if bytes.len() < 1 {
            return Err(Error::Undersized);
        }
        if bytes[0] != 0x44 {
            return Err(Error::InvalidInformationElementIdentifier(bytes[0]));
        }
        if bytes.len() < 3 {
            return Err(Error::Undersized);
        }
        let declared = get_u16(bytes, 1);
        if declared < 25 {
            return Err(Error::Undersized);
        }
        if declared > 25 {
            return Err(Error::Oversized);
        }
        if bytes.len() < 28 {
            return Err(Error::Undersized);
        }
        let client_msg_id = get_u32(bytes, 3);
        let imei: [u8; 15] = [
            bytes[7],
            bytes[8],
            bytes[9],
            bytes[10],
            bytes[11],
            bytes[12],
            bytes[13],
            bytes[14],
            bytes[15],
            bytes[16],
            bytes[17],
            bytes[18],
            bytes[19],
            bytes[20],
            bytes[21],
        ];
        let id_reference = get_u32(bytes, 22);
        let message_status = i16_from_u16(get_u16(bytes, 26));
        let confirmation = Confirmation { client_msg_id, imei, id_reference, message_status };
        proof {
            assert(confirmation.imei@ =~= bytes@.subrange(7, 22));
        }
        Ok(confirmation)
    }

    /// Appends the 28 bytes of this confirmation and returns how many were
    /// appended.
    pub fn write(&self, wtr: &mut Vec<u8>) -> (r: Result<usize, Error>)
        ensures
            r == Ok::<usize, Error>(28usize),
            final(wtr)@ == old(wtr)@ + spec_encode_confirmation(*self),
    {
        wtr.push(0x44);
        put_u16(wtr, 25);
        put_u32(wtr, self.client_msg_id);
        let mut i: usize = 0;
        while i < 15
            invariant
                i <= 15,
                wtr@ =~= old(wtr)@ + seq![0x44u8] + be16_bytes(25) + be32_bytes(self.client_msg_id)
                    + self.imei@.subrange(0, i as int),
            decreases 15 - i,
        {
            wtr.push(self.imei[i]);
            i = i + 1;
        }
        put_u32(wtr, self.id_reference);
        put_u16(wtr, u16_from_i16(self.message_status));
        proof {
            assert(self.imei@.subrange(0, 15) =~= self.imei@);
            assert(wtr@ =~= old(wtr)@ + spec_encode_confirmation(*self));
        }
        Ok(28)
    }

    /// Returns the 28 bytes of this confirmation.
    pub fn to_vec(&self) -> (r: Vec<u8>)
        ensures
            r@ == spec_encode_confirmation(*self),
    {
        let mut buffer: Vec<u8> = Vec::new();
        let result = self.write(&mut buffer);
        proof {
            assert(result is Ok);
        }
        buffer
    }
}

/// Round trip: reading back a written confirmation yields the same
/// confirmation.
pub proof fn lemma_confirmation_round_trip(c: Confirmation)
    ensures
        ({
            let b = spec_encode_confirmation(c);
            &&& b.len() == 28
            &&& b[0] == 0x44
            &&& be16_val(b[1], b[2]) == 25
            &&& be32_val(b[3], b[4], b[5], b[6]) == c.client_msg_id
            &&& b.subrange(7, 22) == c.imei@
            &&& be32_val(b[22], b[23], b[24], b[25]) == c.id_reference
            &&& i16_of_u16(be16_val(b[26], b[27])) == c.message_status
        }),
{
    let b = spec_encode_confirmation(c);
    lemma_be16_roundtrip(25);
    lemma_be32_roundtrip(c.client_msg_id);
    lemma_be32_roundtrip(c.id_reference);
    lemma_be16_roundtrip(u16_of_i16(c.message_status));
    lemma_i16_roundtrip(c.message_status);
    assert(b.subrange(7, 22) =~= c.imei@);
    assert(b[22] == be32_bytes(c.id_reference)[0]);
    assert(b[26] == be16_bytes(u16_of_i16(c.message_status))[0]);
    assert(b[27] == be16_bytes(u16_of_i16(c.message_status))[1]);
}

} // verus!
