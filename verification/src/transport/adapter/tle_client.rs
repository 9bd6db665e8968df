//! The answer of the TLE source, checked.
use crate::astro::models::Tle;
use crate::domain::models::SatelliteIdentifier;
use crate::transport::grpc::converters::{names_no_instant, Timestamp, ToChrono};
use crate::transport::grpc::status::{internal_message, RequestError, StatusCode, StatusParts};
use vstd::prelude::*;
use vstd::string::StringExecFns;

verus! {

/// A two-line element set as the TLE source sends it.
#[derive(Clone, Debug)]
pub struct TleMessage {
    pub norad_id: u32,
    pub satellite_name: String,
    pub line1: String,
    pub line2: String,
    pub epoch: Option<Timestamp>,
}

/// Message for a satellite that the TLE source does not know.
pub open spec fn not_found_message(identifier: SatelliteIdentifier) -> Seq<char> {
    "TLE not found for "@ + identifier.spec_to_string()
}

/// What `tle_of_answer` returns.
///
/// An answer without an element set means that the satellite is not known.
/// An element set without epoch, or with an epoch that no instant has, is
/// refused. Otherwise the element set is handed on with the instant of its
/// epoch.
pub open spec fn tle_of_answer_outcome(
    identifier: SatelliteIdentifier,
    answer: Option<TleMessage>,
    outcome: Result<Tle, StatusParts>,
) -> bool {
    match answer {
        None => outcome matches Err(status) && status.code == StatusCode::NotFound
            && status.message@ == not_found_message(identifier),
        Some(message) => match message.epoch {
            None => outcome matches Err(status) && status.code
                == RequestError::MissingEpoch.spec_code() && status.message@
                == RequestError::MissingEpoch.spec_message(),
            Some(epoch) => match outcome {
                Err(status) => {
                    &&& status.code == StatusCode::Internal
                    &&& status.message@ == internal_message()
                    &&& epoch.nanos < 0 || names_no_instant(
                        epoch.seconds as int,
                        epoch.nanos as int,
                    )
                },
                Ok(tle) => {
                    &&& tle.norad_id == message.norad_id
                    &&& tle.satellite_name == message.satellite_name
                    &&& tle.line1 == message.line1
                    &&& tle.line2 == message.line2
                    &&& epoch.nanos >= 0
                    &&& tle.epoch.spec_at(epoch.seconds as int, epoch.nanos as int)
                },
            },
        },
    }
}

/// The element set in the answer of the TLE source to a request for
/// `identifier`, or the status with which the request fails.
pub fn tle_of_answer(identifier: &SatelliteIdentifier, answer: Option<TleMessage>) -> (r: Result<
    Tle,
    StatusParts,
>)
    ensures
        tle_of_answer_outcome(*identifier, answer, r),
{
    let message = match answer {
        Some(message) => message,
        None => {
            let mut text = String::from_str("TLE not found for ");
            text.append(identifier.to_string().as_str());
            return Err(StatusParts { code: StatusCode::NotFound, message: text });
        },
    };
    let epoch = match message.epoch {
        Some(epoch) => epoch,
        None => {
            return Err(RequestError::MissingEpoch.status());
        },
    };
    let instant = match epoch.to_chrono() {
        Ok(instant) => instant,
        Err(e) => {
            return Err(RequestError::Timestamp(e).status());
        },
    };
    Ok(
        Tle {
            norad_id: message.norad_id,
            satellite_name: message.satellite_name,
            line1: message.line1,
            line2: message.line2,
            epoch: instant,
        },
    )
}

} // verus!
