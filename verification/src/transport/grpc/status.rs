//! What a failure looks like to the caller of the service.
use crate::domain::errors::{PropagationError, TimestampConversionError};
use vstd::prelude::*;
use vstd::string::StringExecFns;

verus! {

/// The kinds of failure that the service reports.
#[derive(Clone, Copy, Debug, PartialEq, Eq, Structural)]
pub enum StatusCode {
    /// The request is at fault.
    InvalidArgument,
    /// What the request names does not exist.
    NotFound,
    /// The service is at fault.
    Internal,
}

/// What is wrong with a request, or with presenting its result.
#[derive(Debug)]
pub enum RequestError {
    /// The request names no satellite.
    MissingIdentifier,
    /// The satellite identifier is neither a catalog number nor a name.
    MissingIdentifierKind,
    /// The request names no instant.
    MissingDatetime,
    /// The request names no observer.
    MissingObserver,
    /// The observer has no latitude.
    MissingLatitude,
    /// The observer has no longitude.
    MissingLongitude,
    /// The observer has no altitude.
    MissingAltitude,
    /// The element set came without its epoch.
    MissingEpoch,
    /// A length is to be presented and no unit of distance is selected.
    DistanceUnitUnspecified,
    /// An angle is to be presented and no unit of angle is selected.
    AngleUnitUnspecified,
    /// A timestamp could not be converted.
    Timestamp(TimestampConversionError),
}

/// A failure as it is reported: its kind and its message.
#[derive(Debug)]
pub struct StatusParts {
    pub code: StatusCode,
    pub message: String,
}

/// A failure of a computation as it is reported: the status that the TLE
/// source sent, or one of the service's own.
#[derive(Debug)]
pub enum Reply {
    Upstream(tonic::Status),
    Local(StatusParts),
}

/// Message of every failure whose cause is not the caller's to know.
pub open spec fn internal_message() -> Seq<char> {
    "Internal server error"@
}

impl RequestError {
    /// The kind under which the failure is reported.
    pub open spec fn spec_code(&self) -> StatusCode {
        match self {
            RequestError::Timestamp(_) => StatusCode::Internal,
            _ => StatusCode::InvalidArgument,
        }
    }

    /// The message with which the failure is reported.
    pub open spec fn spec_message(&self) -> Seq<char> {
        match self {
            RequestError::MissingIdentifier => "Missing satellite identifier (norad_id or name)"@,
            RequestError::MissingIdentifierKind => "Missing satellite identifier"@,
            RequestError::MissingDatetime => "Missing datetime"@,
            RequestError::MissingObserver => "Missing observer"@,
            RequestError::MissingLatitude => "Missing latitude"@,
            RequestError::MissingLongitude => "Missing longitude"@,
            RequestError::MissingAltitude => "Missing alt"@,
            RequestError::MissingEpoch => "Missing epoch"@,
            RequestError::DistanceUnitUnspecified => "Distance unit is unspecified in UnitSettings"@,
            RequestError::AngleUnitUnspecified => "Angle unit is unspecified in UnitSettings"@,
            RequestError::Timestamp(_) => internal_message(),
        }
    }

    /// The kind under which the failure is reported: a failed timestamp
    /// conversion is the service's fault, everything else the request's.
    pub fn code(&self) -> (r: StatusCode)
        ensures
            r == self.spec_code(),
    {
        match self {
            RequestError::Timestamp(_) => StatusCode::Internal,
            _ => StatusCode::InvalidArgument,
        }
    }

    /// The message with which the failure is reported.
    pub fn message(&self) -> (r: String)
        ensures
            r@ == self.spec_message(),
    {
        let text = match self {
            RequestError::MissingIdentifier => "Missing satellite identifier (norad_id or name)",
            RequestError::MissingIdentifierKind => "Missing satellite identifier",
            RequestError::MissingDatetime => "Missing datetime",
            RequestError::MissingObserver => "Missing observer",
            RequestError::MissingLatitude => "Missing latitude",
            RequestError::MissingLongitude => "Missing longitude",
            RequestError::MissingAltitude => "Missing alt",
            RequestError::MissingEpoch => "Missing epoch",
            RequestError::DistanceUnitUnspecified => "Distance unit is unspecified in UnitSettings",
            RequestError::AngleUnitUnspecified => "Angle unit is unspecified in UnitSettings",
            RequestError::Timestamp(_) => "Internal server error",
        };
        String::from_str(text)
    }

    /// The failure as it is reported.
    pub fn status(&self) -> (r: StatusParts)
        ensures
            r.code == self.spec_code(),
            r.message@ == self.spec_message(),
    {
        StatusParts { code: self.code(), message: self.message() }
    }
}

/// How a failed computation is reported: what the TLE source said is
/// passed on as it came; every other cause stays inside, behind the internal
/// message.
pub fn propagation_reply(error: PropagationError) -> (r: Reply)
    ensures
        match error {
            PropagationError::TleFetch(status) => r == Reply::Upstream(status),
            _ => r matches Reply::Local(parts) && parts.code == StatusCode::Internal
                && parts.message@ == internal_message(),
        },
{
    match error {
        PropagationError::TleFetch(status) => Reply::Upstream(status),
        _ => Reply::Local(
            StatusParts {
                code: StatusCode::Internal,
                message: String::from_str("Internal server error"),
            },
        ),
    }
}

} // verus!
