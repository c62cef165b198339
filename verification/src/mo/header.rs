//! The header element of a mobile-originated message.

use crate::mo::SessionStatus;
use vstd::prelude::*;

verus! {

/// A mobile-originated header.
///
/// On the wire the header is a 28-byte information element: call-record id,
/// device id, session status, the two sequence numbers, and the session time
/// as seconds since the Unix epoch. The time is held here as a signed count
/// of seconds so that times outside the unsigned 32-bit wire range can be
/// represented and rejected at encode time.
#[derive(Clone, Copy, Debug, PartialEq, Eq)]
pub struct Header {
    /// The Iridium gateway id for this message, also called the cdr
    /// (call-data-record) reference.
    pub auto_id: u32,
    /// The device id: fifteen ASCII digits.
    pub imei: [u8; 15],
    /// The session status.
    pub session_status: SessionStatus,
    /// The mobile-originated message sequence number.
    pub momsn: u16,
    /// The mobile-terminated message sequence number.
    pub mtmsn: u16,
    /// The time of the Iridium session, in seconds since the Unix epoch.
    pub time_of_session: i64,
}

/// The mathematical image of a header: the same fields, with the device id
/// as a sequence of bytes.
pub ghost struct HeaderV {
    pub auto_id: u32,
    pub imei: Seq<u8>,
    pub session_status: SessionStatus,
    pub momsn: u16,
    pub mtmsn: u16,
    pub time_of_session: i64,
}

impl HeaderV {
    /// The device id always has exactly fifteen bytes.
    pub open spec fn wf(self) -> bool {
        self.imei.len() == 15
    }

    /// True if the session time fits the unsigned 32-bit wire field.
    pub open spec fn time_encodable(self) -> bool {
        0 <= self.time_of_session <= u32::MAX
    }
}

impl View for Header {
    type V = HeaderV;

    open spec fn view(&self) -> HeaderV {
        HeaderV {
            auto_id: self.auto_id,
            imei: self.imei@,
            session_status: self.session_status,
            momsn: self.momsn,
            mtmsn: self.mtmsn,
            time_of_session: self.time_of_session,
        }
    }
}

impl Header {
    /// Returns true if the two headers hold the same fields.
    pub fn same_as(&self, other: &Header) -> (r: bool)
        ensures
            r == (self@ == other@),
    {
        let mut i: usize = 0;
        while i < 15
            invariant
                i <= 15,
                forall|j: int| 0 <= j < i ==> self@.imei[j] == other@.imei[j],
            decreases 15 - i,
        {
            if self.imei[i] != other.imei[i] {
                return false;
            }
            i = i + 1;
        }
        proof {
            assert(self@.imei =~= other@.imei);
        }
        self.auto_id == other.auto_id && self.session_status == other.session_status
            && self.momsn == other.momsn && self.mtmsn == other.mtmsn
            && self.time_of_session == other.time_of_session
    }
}

} // verus!
