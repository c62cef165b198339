//! A decoded view of the optional location-information element.

use crate::bytes::be16_val;
use crate::bytes::be32_val;
use vstd::prelude::*;

verus! {

/// A mobile-originated location estimate, decoded from the eleven content
/// bytes of a location-information element.
#[derive(Clone, Copy, Debug, PartialEq, Eq, Structural)]
pub struct MoLocation {
    /// True for the northern hemisphere (wire bit 0 clear).
    pub north: bool,
    /// True for the eastern hemisphere (wire bit 1 clear).
    pub east: bool,
    /// Latitude degrees, 0 through 90.
    pub lat_deg: u8,
    /// Latitude thousandths of a minute, 0 through 59999.
    pub lat_thousandths_min: u16,
    /// Longitude degrees, 0 through 180.
    pub lon_deg: u8,
    /// Longitude thousandths of a minute, 0 through 59999.
    pub lon_thousandths_min: u16,
    /// Circular-error-probable radius in kilometers (80% confidence).
    pub cep_km: u32,
}

/// Why an eleven-byte location block was rejected.
#[derive(Clone, Copy, Debug, PartialEq, Eq, Structural)]
pub enum MoLocationError {
    /// Bits of the first byte other than the two hemisphere flags were set.
    ReservedBitsNonZero(u8),
    /// The latitude degrees exceed 90.
    LatDegOutOfRange(u8),
    /// The latitude thousandths of a minute exceed 59999.
    LatThousandthsOutOfRange(u16),
    /// The longitude degrees exceed 180.
    LonDegOutOfRange(u8),
    /// The longitude thousandths of a minute exceed 59999.
    LonThousandthsOutOfRange(u16),
}

/// The location named by eleven content bytes, or the reason there is none.
///
/// Layout: byte 0 carries the hemisphere flags in its two lowest bits (0 is
/// north, respectively east) and must be zero elsewhere; byte 1 is latitude
/// degrees; bytes 2 and 3 are latitude thousandths of a minute, big-endian;
/// byte 4 is longitude degrees; bytes 5 and 6 are longitude thousandths of a
/// minute; bytes 7 through 10 are the CEP radius in kilometers, big-endian.
pub open spec fn spec_parse_location(b: Seq<u8>) -> Result<MoLocation, MoLocationError>
    recommends
        b.len() == 11,
{
    if b[0] & 0xfc != 0 {
        Err(MoLocationError::ReservedBitsNonZero(b[0]))
    } else if b[1] > 90 {
        Err(MoLocationError::LatDegOutOfRange(b[1]))
    } else if be16_val(b[2], b[3]) > 59999 {
        Err(MoLocationError::LatThousandthsOutOfRange(be16_val(b[2], b[3])))
    } else if b[4] > 180 {
        Err(MoLocationError::LonDegOutOfRange(b[4]))
    } else if be16_val(b[5], b[6]) > 59999 {
        Err(MoLocationError::LonThousandthsOutOfRange(be16_val(b[5], b[6])))
    } else {
        Ok(
            MoLocation {
                north: b[0] & 0x01 == 0,
                east: b[0] & 0x02 == 0,
                lat_deg: b[1],
                lat_thousandths_min: be16_val(b[2], b[3]),
                lon_deg: b[4],
                lon_thousandths_min: be16_val(b[5], b[6]),
                cep_km: be32_val(b[7], b[8], b[9], b[10]),
            },
        )
    }
}

impl MoLocation {
    /// Parses the eleven content bytes of a location-information element.
    ///
    /// Returns an error if and only if the reserved bits of the first byte
    /// are set or one of the range-limited fields is out of range, naming
    /// the first violation in layout order.
    pub fn parse(bytes: [u8; 11]) -> (r: Result<MoLocation, MoLocationError>)
        ensures
            r == spec_parse_location(bytes@),
    {
        let b0 = bytes[0];
        let reserved = b0 & 0xfc;
        if reserved != 0 {
            return Err(MoLocationError::ReservedBitsNonZero(b0));
        }

        let north = (b0 & 0x01) == 0;
        let east = (b0 & 0x02) == 0;

        let lat_deg = bytes[1];
        if lat_deg > 90 {
            return Err(MoLocationError::LatDegOutOfRange(lat_deg));
        }

        let lat_thousandths_min = (bytes[2] as u16) * 256 + (bytes[3] as u16);
        if lat_thousandths_min > 59999 {
            return Err(MoLocationError::LatThousandthsOutOfRange(lat_thousandths_min));
        }

        let lon_deg = bytes[4];
        if lon_deg > 180 {
            return Err(MoLocationError::LonDegOutOfRange(lon_deg));
        }

        let lon_thousandths_min = (bytes[5] as u16) * 256 + (bytes[6] as u16);
        if lon_thousandths_min > 59999 {
            return Err(MoLocationError::LonThousandthsOutOfRange(lon_thousandths_min));
        }

        let cep_km = (bytes[7] as u32) * 0x1000000 + (bytes[8] as u32) * 0x10000
            + (bytes[9] as u32) * 256 + (bytes[10] as u32);

        Ok(
            MoLocation {
                north,
                east,
                lat_deg,
                lat_thousandths_min,
                lon_deg,
                lon_thousandths_min,
                cep_km,
            },
        )
    }
}

} // verus!
