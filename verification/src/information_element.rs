//! Names for the wire tags that information elements carry.
//!
//! Every information element starts with a one-byte identifier. The mapping
//! between identifiers and element kinds is closed and explicit, so an
//! unrecognized tag is a checked branch rather than a blind cast.

use vstd::prelude::*;

verus! {

/// The kind of an information element, as named by its wire tag.
#[derive(Clone, Copy, Debug, Hash, PartialEq, Eq, Structural)]
pub enum InformationElementType {
    /// The header of a mobile-originated message (tag 0x01).
    MobileOriginatedHeader,
    /// The payload of a mobile-originated message (tag 0x02).
    MobileOriginatedPayload,
    /// An estimate of the originating device's location (tag 0x03).
    MobileOriginatedLocationInformation,
    /// The header of a mobile-terminated message (tag 0x41).
    MobileTerminatedHeader,
    /// The payload of a mobile-terminated message (tag 0x42).
    MobileTerminatedPayload,
    /// A mobile-terminated confirmation (tag 0x44).
    MobileTerminatedConfirmationMessage,
    /// Any tag outside the closed set above.
    Unknown,
}

/// The element kind a wire tag names.
pub open spec fn spec_element_type_of(n: u8) -> InformationElementType {
    if n == 0x01 {
        InformationElementType::MobileOriginatedHeader
    } else if n == 0x02 {
        InformationElementType::MobileOriginatedPayload
    } else if n == 0x03 {
        InformationElementType::MobileOriginatedLocationInformation
    } else if n == 0x41 {
        InformationElementType::MobileTerminatedHeader
    } else if n == 0x42 {
        InformationElementType::MobileTerminatedPayload
    } else if n == 0x44 {
        InformationElementType::MobileTerminatedConfirmationMessage
    } else {
        InformationElementType::Unknown
    }
}

impl From<u8> for InformationElementType {
    fn from(n: u8) -> (r: InformationElementType) {
        match n {
            0x01 => InformationElementType::MobileOriginatedHeader,
            0x02 => InformationElementType::MobileOriginatedPayload,
            0x03 => InformationElementType::MobileOriginatedLocationInformation,
            0x41 => InformationElementType::MobileTerminatedHeader,
            0x42 => InformationElementType::MobileTerminatedPayload,
            0x44 => InformationElementType::MobileTerminatedConfirmationMessage,
            _ => InformationElementType::Unknown,
        }
    }
}

impl vstd::std_specs::convert::FromSpecImpl<u8> for InformationElementType {
    open spec fn obeys_from_spec() -> bool {
        true
    }

    open spec fn from_spec(n: u8) -> InformationElementType {
        spec_element_type_of(n)
    }
}

impl Default for InformationElementType {
    /// An absent or unset element type is the unknown one.
    fn default() -> (r: InformationElementType)
        ensures
            r == InformationElementType::Unknown,
    {
        InformationElementType::Unknown
    }
}

} // verus!
