//! The outcome of a mobile-originated session.

use crate::Error;
use vstd::prelude::*;

verus! {

/// The status of a mobile-originated session.
///
/// The wire format carries the status as a single byte out of a closed set of
/// codes. This crate rejects codes outside that set with
/// [`Error::UnknownSessionStatus`] wherever a status is decoded, rather than
/// folding them into a catch-all value: a message built from bytes this crate
/// accepted can always be encoded again.
#[derive(Clone, Copy, Debug, Eq, PartialEq, Structural)]
pub enum SessionStatus {
    /// The SBD session completed successfully.
    Success,
    /// The MO transfer succeeded, but the MT message queued at the gateway is
    /// too large for a single SBD session.
    OkMobileTerminatedTooLarge,
    /// The MO transfer succeeded, but the reported location was of
    /// unacceptable quality.
    OkLocationUnacceptableQuality,
    /// The SBD session timed out before completion.
    Timeout,
    /// The MO message is too large to transfer in a single SBD session.
    MobileOriginatedTooLarge,
    /// An RF link loss occurred during the session.
    RFLinkLoss,
    /// A device protocol anomaly occurred during the session.
    IMEIProtocolAnomaly,
    /// The device is prohibited from accessing the gateway.
    Prohibited,
}

/// The wire code of a session status.
pub open spec fn spec_status_code(s: SessionStatus) -> u8 {
    match s {
        SessionStatus::Success => 0,
        SessionStatus::OkMobileTerminatedTooLarge => 1,
        SessionStatus::OkLocationUnacceptableQuality => 2,
        SessionStatus::Timeout => 10,
        SessionStatus::MobileOriginatedTooLarge => 12,
        SessionStatus::RFLinkLoss => 13,
        SessionStatus::IMEIProtocolAnomaly => 14,
        SessionStatus::Prohibited => 15,
    }
}

/// The status a wire code names, if any.
pub open spec fn spec_status_of_code(n: u8) -> Option<SessionStatus> {
    if n == 0 {
        Some(SessionStatus::Success)
    } else if n == 1 {
        Some(SessionStatus::OkMobileTerminatedTooLarge)
    } else if n == 2 {
        Some(SessionStatus::OkLocationUnacceptableQuality)
    } else if n == 10 {
        Some(SessionStatus::Timeout)
    } else if n == 12 {
        Some(SessionStatus::MobileOriginatedTooLarge)
    } else if n == 13 {
        Some(SessionStatus::RFLinkLoss)
    } else if n == 14 {
        Some(SessionStatus::IMEIProtocolAnomaly)
    } else if n == 15 {
        Some(SessionStatus::Prohibited)
    } else {
        None
    }
}

/// Decoding the code of a status gives the status back.
pub proof fn lemma_status_code_roundtrip(s: SessionStatus)
    ensures
        spec_status_of_code(spec_status_code(s)) == Some(s),
{
}

impl SessionStatus {
    /// Creates a new session status from a wire code.
    ///
    /// Returns an error if and only if the code is outside the closed set.
    pub fn new(n: u8) -> (r: Result<SessionStatus, Error>)
        ensures
            match spec_status_of_code(n) {
                Some(s) => r == Ok::<SessionStatus, Error>(s),
                None => r == Err::<SessionStatus, Error>(Error::UnknownSessionStatus(n)),
            },
    {
        match n {
            0 => Ok(SessionStatus::Success),
            1 => Ok(SessionStatus::OkMobileTerminatedTooLarge),
            2 => Ok(SessionStatus::OkLocationUnacceptableQuality),
            10 => Ok(SessionStatus::Timeout),
            12 => Ok(SessionStatus::MobileOriginatedTooLarge),
            13 => Ok(SessionStatus::RFLinkLoss),
            14 => Ok(SessionStatus::IMEIProtocolAnomaly),
            15 => Ok(SessionStatus::Prohibited),
            _ => Err(Error::UnknownSessionStatus(n)),
        }
    }

    /// Returns the wire code of this status.
    pub fn code(&self) -> (r: u8)
        ensures
            r == spec_status_code(*self),
    {
        match *self {
            SessionStatus::Success => 0,
            SessionStatus::OkMobileTerminatedTooLarge => 1,
            SessionStatus::OkLocationUnacceptableQuality => 2,
            SessionStatus::Timeout => 10,
            SessionStatus::MobileOriginatedTooLarge => 12,
            SessionStatus::RFLinkLoss => 13,
            SessionStatus::IMEIProtocolAnomaly => 14,
            SessionStatus::Prohibited => 15,
        }
    }
}

} // verus!
