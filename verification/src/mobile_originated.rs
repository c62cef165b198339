//! A flattened, read-only view of a mobile-originated message.

use crate::mo::Message;
use crate::mo::SessionStatus;
use crate::Error;
use crate::ErrorV;
use vstd::prelude::*;

verus! {

/// A mobile-originated message flattened into its header fields and
/// payload, with the session time as an unsigned epoch count exactly as the
/// wire carries it.
#[derive(Debug)]
pub struct MobileOriginated {
    cdr_reference: u32,
    imei: [u8; 15],
    session_status: SessionStatus,
    momsn: u16,
    mtmsn: u16,
    time: u32,
    payload: Vec<u8>,
}

/// The mathematical image of a flattened message.
pub ghost struct MobileOriginatedV {
    pub cdr_reference: u32,
    pub imei: Seq<u8>,
    pub session_status: SessionStatus,
    pub momsn: u16,
    pub mtmsn: u16,
    pub time: u32,
    pub payload: Seq<u8>,
}

impl View for MobileOriginated {
    type V = MobileOriginatedV;

    closed spec fn view(&self) -> MobileOriginatedV {
        MobileOriginatedV {
            cdr_reference: self.cdr_reference,
            imei: self.imei@,
            session_status: self.session_status,
            momsn: self.momsn,
            mtmsn: self.mtmsn,
            time: self.time,
            payload: self.payload@,
        }
    }
}

impl MobileOriginated {
    /// The device id always holds exactly fifteen bytes.
    #[verifier::type_invariant]
    pub open spec fn type_inv(self) -> bool {
        self@.imei.len() == 15
    }

    /// Returns the cdr reference, also called the auto id.
    pub fn cdr_reference(&self) -> (r: u32)
        ensures
            r == self@.cdr_reference,
    {
        self.cdr_reference
    }

    /// Returns the device id bytes, always fifteen of them.
    pub fn imei(&self) -> (r: &[u8])
        ensures
            r@ == self@.imei,
            r@.len() == 15,
    {
        proof {
            use_type_invariant(self);
        }
        self.imei.as_slice()
    }

    /// Returns the status of the mobile-originated session.
    pub fn session_status(&self) -> (r: SessionStatus)
        ensures
            r == self@.session_status,
    {
        self.session_status
    }

    /// Returns the mobile-originated message sequence number.
    pub fn momsn(&self) -> (r: u16)
        ensures
            r == self@.momsn,
    {
        self.momsn
    }

    /// Returns the mobile-terminated message sequence number.
    pub fn mtmsn(&self) -> (r: u16)
        ensures
            r == self@.mtmsn,
    {
        self.mtmsn
    }

    /// Returns the session time, in seconds since the Unix epoch.
    pub fn time(&self) -> (r: u32)
        ensures
            r == self@.time,
    {
        self.time
    }

    /// Returns the payload.
    pub fn payload(&self) -> (r: &Vec<u8>)
        ensures
            r@ == self@.payload,
    {
        &self.payload
    }
}

impl Message {
    /// Flattens this message into a [`MobileOriginated`].
    ///
    /// Succeeds if and only if the session time fits the unsigned 32-bit
    /// wire field: a negative time is rejected with
    /// [`Error::NegativeTimestamp`], one beyond the field with
    /// [`Error::InvalidTimeOfSession`].
    pub fn into_mobile_originated(self) -> (r: Result<MobileOriginated, Error>)
        ensures
            match r {
                Ok(mo) => self@.header.time_encodable() && mo@ == (MobileOriginatedV {
                    cdr_reference: self@.header.auto_id,
                    imei: self@.header.imei,
                    session_status: self@.header.session_status,
                    momsn: self@.header.momsn,
                    mtmsn: self@.header.mtmsn,
                    time: self@.header.time_of_session as u32,
                    payload: self@.payload,
                }),
                Err(e) => !self@.header.time_encodable() && e@ == (
                if self@.header.time_of_session < 0 {
                    ErrorV::NegativeTimestamp(self@.header.time_of_session)
                } else {
                    ErrorV::InvalidTimeOfSession
                }),
            },
    {
        let header = *self.header();
        if header.time_of_session < 0 {
            return Err(Error::NegativeTimestamp(header.time_of_session));
        }
        if header.time_of_session > u32::MAX as i64 {
            return Err(Error::InvalidTimeOfSession);
        }
        let mut payload: Vec<u8> = Vec::new();
        let source = self.payload();
        let mut i: usize = 0;
        while i < source.len()
            invariant
                i <= source@.len(),
                source@ == self@.payload,
                payload@ =~= source@.subrange(0, i as int),
            decreases source@.len() - i,
        {
            payload.push(source[i]);
            i = i + 1;
        }
        proof {
            assert(payload@ =~= self@.payload);
        }
        Ok(
            MobileOriginated {
                cdr_reference: header.auto_id,
                imei: header.imei,
                session_status: header.session_status,
                momsn: header.momsn,
                mtmsn: header.mtmsn,
                time: header.time_of_session as u32,
                payload,
            },
        )
    }
}

} // verus!
