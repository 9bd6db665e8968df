//! What a request must hold before anything is computed.
use crate::astro::coords::geodetic::Geodetic;
use crate::astro::time::UtcDateTime;
use crate::domain::errors::TimestampConversionError;
use crate::domain::models::SatelliteIdentifier;
use crate::transport::grpc::converters::{Timestamp, ToChrono};
use crate::transport::grpc::status::RequestError;
use vstd::prelude::*;

verus! {

/// An angle as a request gives it.
#[derive(Clone, Copy, Debug)]
pub enum AngleInput<V> {
    Radians(V),
    Degrees(V),
}

/// An altitude as a request gives it.
#[derive(Clone, Copy, Debug)]
pub enum AltitudeInput<V> {
    Meters(V),
    Kilometers(V),
}

/// An observer's place as a request gives it.
#[derive(Clone, Copy, Debug)]
pub struct GeodeticInput<V> {
    pub lat: Option<AngleInput<V>>,
    pub lon: Option<AngleInput<V>>,
    pub alt: Option<AltitudeInput<V>>,
}

/// A satellite identifier as a request gives it: the kind may be missing.
#[derive(Clone, Debug)]
pub struct IdentifierInput {
    pub kind: Option<SatelliteIdentifier>,
}

/// What `GeodeticInput::into_geodetic` may return: the refusal of the first
/// part that is missing, in the order latitude, longitude, altitude, or the
/// place made of the three parts.
pub open spec fn into_geodetic_outcome<V, A, L, FA, FL>(
    input: GeodeticInput<V>,
    angle_of: FA,
    length_of: FL,
    outcome: Result<Geodetic<A, L>, RequestError>,
) -> bool where FA: Fn(AngleInput<V>) -> A, FL: FnOnce(AltitudeInput<V>) -> L {
    match input.lat {
        None => outcome == Err::<Geodetic<A, L>, RequestError>(RequestError::MissingLatitude),
        Some(lat) => match input.lon {
            None => outcome == Err::<Geodetic<A, L>, RequestError>(RequestError::MissingLongitude),
            Some(lon) => match input.alt {
                None => outcome == Err::<Geodetic<A, L>, RequestError>(
                    RequestError::MissingAltitude,
                ),
                Some(alt) => {
                    &&& outcome matches Ok(place)
                    &&& angle_of.ensures((lat,), place.lat)
                    &&& angle_of.ensures((lon,), place.lon)
                    &&& length_of.ensures((alt,), place.alt)
                },
            },
        },
    }
}

impl<V> GeodeticInput<V> {
    /// The observer's place; `angle_of` and `length_of` read an angle and an
    /// altitude in whichever unit the request gives them.
    pub fn into_geodetic<A, L, FA, FL>(self, angle_of: &FA, length_of: FL) -> (r: Result<
        Geodetic<A, L>,
        RequestError,
    >) where FA: Fn(AngleInput<V>) -> A, FL: FnOnce(AltitudeInput<V>) -> L
        requires
            forall|angle: AngleInput<V>| #[trigger] angle_of.requires((angle,)),
            forall|altitude: AltitudeInput<V>| #[trigger] length_of.requires((altitude,)),
        ensures
            into_geodetic_outcome(self, *angle_of, length_of, r),
    {
        let lat = match self.lat {
            Some(lat) => angle_of(lat),
            None => {
                return Err(RequestError::MissingLatitude);
            },
        };
        let lon = match self.lon {
            Some(lon) => angle_of(lon),
            None => {
                return Err(RequestError::MissingLongitude);
            },
        };
        let alt = match self.alt {
            Some(alt) => length_of(alt),
            None => {
                return Err(RequestError::MissingAltitude);
            },
        };
        Ok(Geodetic { lat, lon, alt })
    }
}

impl IdentifierInput {
    /// The identifier, or the refusal of one without a kind.
    pub fn into_identifier(self) -> (r: Result<SatelliteIdentifier, RequestError>)
        ensures
            r == match self.kind {
                Some(identifier) => Ok::<SatelliteIdentifier, RequestError>(identifier),
                None => Err(RequestError::MissingIdentifierKind),
            },
    {
        match self.kind {
            Some(identifier) => Ok(identifier),
            None => Err(RequestError::MissingIdentifierKind),
        }
    }
}

/// What `position_request` may return: the refusal of the first part that
/// is missing or unusable, in the order identifier, instant, or the two
/// parts, the instant being the one that the timestamp names.
pub open spec fn position_request_outcome(
    identifier: Option<IdentifierInput>,
    datetime: Option<Timestamp>,
    outcome: Result<(SatelliteIdentifier, UtcDateTime), RequestError>,
) -> bool {
    match identifier {
        None => outcome == Err::<(SatelliteIdentifier, UtcDateTime), RequestError>(
            RequestError::MissingIdentifier,
        ),
        Some(input) => match input.kind {
            None => outcome == Err::<(SatelliteIdentifier, UtcDateTime), RequestError>(
                RequestError::MissingIdentifierKind,
            ),
            Some(satellite) => match datetime {
                None => outcome == Err::<(SatelliteIdentifier, UtcDateTime), RequestError>(
                    RequestError::MissingDatetime,
                ),
                Some(timestamp) => exists|converted: Result<UtcDateTime, TimestampConversionError>|
                    {
                        &&& #[trigger] timestamp.chrono_outcome(converted)
                        &&& outcome == match converted {
                            Ok(instant) => Ok::<(SatelliteIdentifier, UtcDateTime), RequestError>(
                                (satellite, instant),
                            ),
                            Err(e) => Err(RequestError::Timestamp(e)),
                        }
                    },
            },
        },
    }
}

/// Checks the parts that every request carries: which satellite, and when.
pub fn position_request(identifier: Option<IdentifierInput>, datetime: Option<Timestamp>) -> (r:
    Result<(SatelliteIdentifier, UtcDateTime), RequestError>)
    ensures
        position_request_outcome(identifier, datetime, r),
{
    let satellite = match identifier {
        Some(input) => match input.into_identifier() {
            Ok(satellite) => satellite,
            Err(e) => {
                return Err(e);
            },
        },
        None => {
            return Err(RequestError::MissingIdentifier);
        },
    };
    let timestamp = match datetime {
        Some(timestamp) => timestamp,
        None => {
            return Err(RequestError::MissingDatetime);
        },
    };
    match timestamp.to_chrono() {
        Ok(instant) => Ok((satellite, instant)),
        Err(e) => Err(RequestError::Timestamp(e)),
    }
}

/// What `look_angles_request` may return: what `position_request` refuses
/// is refused first; then a missing observer, then the first missing part of
/// the observer's place.
pub open spec fn look_angles_request_outcome<V, A, L, FA, FL>(
    identifier: Option<IdentifierInput>,
    datetime: Option<Timestamp>,
    observer: Option<GeodeticInput<V>>,
    angle_of: FA,
    length_of: FL,
    outcome: Result<(SatelliteIdentifier, UtcDateTime, Geodetic<A, L>), RequestError>,
) -> bool where FA: Fn(AngleInput<V>) -> A, FL: FnOnce(AltitudeInput<V>) -> L {
    exists|first: Result<(SatelliteIdentifier, UtcDateTime), RequestError>|
        {
            &&& #[trigger] position_request_outcome(identifier, datetime, first)
            &&& match first {
                Err(e) => outcome == Err::<
                    (SatelliteIdentifier, UtcDateTime, Geodetic<A, L>),
                    RequestError,
                >(e),
                Ok((satellite, instant)) => match observer {
                    None => outcome == Err::<
                        (SatelliteIdentifier, UtcDateTime, Geodetic<A, L>),
                        RequestError,
                    >(RequestError::MissingObserver),
                    Some(input) => exists|place: Result<Geodetic<A, L>, RequestError>|
                        {
                            &&& #[trigger] into_geodetic_outcome(input, angle_of, length_of, place)
                            &&& match place {
                                Err(e) => outcome == Err::<
                                    (SatelliteIdentifier, UtcDateTime, Geodetic<A, L>),
                                    RequestError,
                                >(e),
                                Ok(p) => outcome == Ok::<
                                    (SatelliteIdentifier, UtcDateTime, Geodetic<A, L>),
                                    RequestError,
                                >((satellite, instant, p)),
                            }
                        },
                },
            }
        }
}

/// Checks the parts of a look-angles request: which satellite, when, and
/// seen from where.
pub fn look_angles_request<V, A, L, FA, FL>(
    identifier: Option<IdentifierInput>,
    datetime: Option<Timestamp>,
    observer: Option<GeodeticInput<V>>,
    angle_of: &FA,
    length_of: FL,
) -> (r: Result<(SatelliteIdentifier, UtcDateTime, Geodetic<A, L>), RequestError>) where
    FA: Fn(AngleInput<V>) -> A,
    FL: FnOnce(AltitudeInput<V>) -> L,

    requires
        forall|angle: AngleInput<V>| #[trigger] angle_of.requires((angle,)),
        forall|altitude: AltitudeInput<V>| #[trigger] length_of.requires((altitude,)),
    ensures
        look_angles_request_outcome(identifier, datetime, observer, *angle_of, length_of, r),
{
    let (satellite, instant) = match position_request(identifier, datetime) {
        Ok(pair) => pair,
        Err(e) => {
            return Err(e);
        },
    };
    let input = match observer {
        Some(input) => input,
        None => {
            return Err(RequestError::MissingObserver);
        },
    };
    match input.into_geodetic(angle_of, length_of) {
        Ok(place) => Ok((satellite, instant, place)),
        Err(e) => Err(e),
    }
}

} // verus!
