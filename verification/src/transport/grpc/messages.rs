//! The messages of the service, and how results are presented in the units
//! that a request selects.
use crate::astro::coords::ecef::Ecef;
use crate::astro::coords::eci::Eci;
use crate::astro::coords::geodetic::Geodetic;
use crate::astro::models::{LookAngles, SatellitePosition};
use crate::domain::models::ComputationMetadata as Metadata;
use crate::transport::grpc::converters::{timestamp_of, Timestamp, ToProtoTimestamp};
use crate::transport::grpc::status::RequestError;
use vstd::prelude::*;

verus! {

/// Unit in which lengths are presented.
#[derive(Clone, Copy, Debug, PartialEq, Eq, Structural)]
pub enum DistanceUnit {
    Unspecified,
    Meters,
    Kilometers,
    Miles,
}

/// Unit in which angles are presented.
#[derive(Clone, Copy, Debug, PartialEq, Eq, Structural)]
pub enum AngleUnit {
    Unspecified,
    Degrees,
    Radians,
}

/// The units that a request selects.
#[derive(Clone, Copy, Debug, PartialEq, Eq, Structural)]
pub struct UnitSettings {
    pub distance_unit: DistanceUnit,
    pub angle_unit: AngleUnit,
}

/// Three lengths as numbers of the selected unit.
#[derive(Clone, Copy, Debug)]
pub struct Vector3<N> {
    pub x: N,
    pub y: N,
    pub z: N,
}

/// A geodetic point as numbers of the selected units.
#[derive(Clone, Copy, Debug)]
pub struct GeodeticOutput<N> {
    pub lat: N,
    pub lon: N,
    pub alt: N,
}

/// The record of a computation as the wire carries it.
#[derive(Clone, Debug)]
pub struct ComputationMetadata {
    pub propagation_model: String,
    pub computation_time: Option<Timestamp>,
    pub norad_id: u32,
    pub satellite_name: String,
    pub tle_epoch: Option<Timestamp>,
    pub units: Option<UnitSettings>,
}

/// The answer to a position request.
#[derive(Clone, Debug)]
pub struct PositionResponse<N> {
    pub metadata: Option<ComputationMetadata>,
    pub eci: Option<Vector3<N>>,
    pub ecef: Option<Vector3<N>>,
    pub geodetic: Option<GeodeticOutput<N>>,
}

/// The answer to a look-angles request.
#[derive(Clone, Debug)]
pub struct LookAnglesResponse<N> {
    pub metadata: Option<ComputationMetadata>,
    pub azimuth: Option<N>,
    pub elevation: Option<N>,
    pub range: Option<N>,
}

/// A vector whose three components can be read.
pub trait HasXYZ<L> {
    /// First component.
    spec fn spec_x(&self) -> L;

    /// Second component.
    spec fn spec_y(&self) -> L;

    /// Third component.
    spec fn spec_z(&self) -> L;

    /// First component.
    fn x(&self) -> (r: L)
        ensures
            r == self.spec_x(),
    ;

    /// Second component.
    fn y(&self) -> (r: L)
        ensures
            r == self.spec_y(),
    ;

    /// Third component.
    fn z(&self) -> (r: L)
        ensures
            r == self.spec_z(),
    ;
}

impl<L: Copy> HasXYZ<L> for Eci<L> {
    open spec fn spec_x(&self) -> L {
        self.x
    }

    open spec fn spec_y(&self) -> L {
        self.y
    }

    open spec fn spec_z(&self) -> L {
        self.z
    }

    fn x(&self) -> (r: L) {
        self.x
    }

    fn y(&self) -> (r: L) {
        self.y
    }

    fn z(&self) -> (r: L) {
        self.z
    }
}

impl<L: Copy> HasXYZ<L> for Ecef<L> {
    open spec fn spec_x(&self) -> L {
        self.x
    }

    open spec fn spec_y(&self) -> L {
        self.y
    }

    open spec fn spec_z(&self) -> L {
        self.z
    }

    fn x(&self) -> (r: L) {
        self.x
    }

    fn y(&self) -> (r: L) {
        self.y
    }

    fn z(&self) -> (r: L) {
        self.z
    }
}

/// The unit of distance that a request selects: unspecified where the
/// request carries no units.
pub open spec fn distance_unit_of(units: Option<UnitSettings>) -> DistanceUnit {
    match units {
        Some(u) => u.distance_unit,
        None => DistanceUnit::Unspecified,
    }
}

/// The unit of angle that a request selects: unspecified where the request
/// carries no units.
pub open spec fn angle_unit_of(units: Option<UnitSettings>) -> AngleUnit {
    match units {
        Some(u) => u.angle_unit,
        None => AngleUnit::Unspecified,
    }
}

/// The first reason for which the units cannot present a length and an
/// angle, if there is one: the distance is looked at before the angle.
pub open spec fn units_refusal(units: Option<UnitSettings>) -> Option<RequestError> {
    if distance_unit_of(units) == DistanceUnit::Unspecified {
        Some(RequestError::DistanceUnitUnspecified)
    } else if angle_unit_of(units) == AngleUnit::Unspecified {
        Some(RequestError::AngleUnitUnspecified)
    } else {
        None
    }
}

impl UnitSettings {
    /// The selected unit of distance.
    pub fn distance(units: &Option<UnitSettings>) -> (r: DistanceUnit)
        ensures
            r == distance_unit_of(*units),
    {
        match units {
            Some(u) => u.distance_unit,
            None => DistanceUnit::Unspecified,
        }
    }

    /// The selected unit of angle.
    pub fn angle(units: &Option<UnitSettings>) -> (r: AngleUnit)
        ensures
            r == angle_unit_of(*units),
    {
        match units {
            Some(u) => u.angle_unit,
            None => AngleUnit::Unspecified,
        }
    }

    /// Both selected units, or the first reason why one is missing.
    pub fn both(units: &Option<UnitSettings>) -> (r: Result<(DistanceUnit, AngleUnit), RequestError>)
        ensures
            match units_refusal(*units) {
                Some(e) => r == Err::<(DistanceUnit, AngleUnit), RequestError>(e),
                None => r == Ok::<(DistanceUnit, AngleUnit), RequestError>(
                    (distance_unit_of(*units), angle_unit_of(*units)),
                ),
            },
    {
        let distance = Self::distance(units);
        let angle = Self::angle(units);
        if distance == DistanceUnit::Unspecified {
            Err(RequestError::DistanceUnitUnspecified)
        } else if angle == AngleUnit::Unspecified {
            Err(RequestError::AngleUnitUnspecified)
        } else {
            Ok((distance, angle))
        }
    }
}

/// The wire record of `metadata` under `units`.
pub open spec fn metadata_with_units(
    metadata: Metadata,
    units: Option<UnitSettings>,
) -> ComputationMetadata {
    ComputationMetadata {
        propagation_model: metadata.propagation_model,
        computation_time: Some(timestamp_of(metadata.computation_time)),
        norad_id: metadata.norad_id,
        satellite_name: metadata.satellite_name,
        tle_epoch: Some(timestamp_of(metadata.tle_epoch)),
        units,
    }
}

impl ComputationMetadata {
    /// The wire record of a computation, with the units that its numbers
    /// are presented in.
    pub fn with_units(metadata: Metadata, units: Option<UnitSettings>) -> (r: Result<
        Option<Self>,
        RequestError,
    >)
        ensures
            r == Ok::<Option<Self>, RequestError>(Some(metadata_with_units(metadata, units))),
    {
        let computation_time = match metadata.computation_time.to_proto_timestamp() {
            Ok(t) => t,
            Err(e) => {
                return Err(RequestError::Timestamp(e));
            },
        };
        let tle_epoch = match metadata.tle_epoch.to_proto_timestamp() {
            Ok(t) => t,
            Err(e) => {
                return Err(RequestError::Timestamp(e));
            },
        };
        Ok(
            Some(
                ComputationMetadata {
                    propagation_model: metadata.propagation_model,
                    computation_time: Some(computation_time),
                    norad_id: metadata.norad_id,
                    satellite_name: metadata.satellite_name,
                    tle_epoch: Some(tle_epoch),
                    units,
                },
            ),
        )
    }
}

/// What a reference that may be absent refers to.
pub open spec fn referent<T>(value: Option<&T>) -> Option<T> {
    match value {
        Some(v) => Some(*v),
        None => None,
    }
}

/// What `Vector3::from_xyz` may return.
///
/// No vector gives no output, whatever the units. A vector without a unit
/// of distance is refused. Otherwise each component is presented in the
/// selected unit.
pub open spec fn from_xyz_outcome<L, N, T: HasXYZ<L>, F: Fn(L, DistanceUnit) -> N>(
    coords: Option<T>,
    units: Option<UnitSettings>,
    present: F,
    outcome: Result<Option<Vector3<N>>, RequestError>,
) -> bool {
    match coords {
        None => outcome == Ok::<Option<Vector3<N>>, RequestError>(None),
        Some(v) => {
            let unit = distance_unit_of(units);
            if unit == DistanceUnit::Unspecified {
                outcome == Err::<Option<Vector3<N>>, RequestError>(
                    RequestError::DistanceUnitUnspecified,
                )
            } else {
                &&& outcome matches Ok(Some(out))
                &&& present.ensures((v.spec_x(), unit), out.x)
                &&& present.ensures((v.spec_y(), unit), out.y)
                &&& present.ensures((v.spec_z(), unit), out.z)
            }
        },
    }
}

impl<N> Vector3<N> {
    /// Presents a vector in the selected unit of distance; `present` turns
    /// one length into a number of a given unit.
    pub fn from_xyz<L, T: HasXYZ<L>, F: Fn(L, DistanceUnit) -> N>(
        coords: Option<&T>,
        units: Option<UnitSettings>,
        present: &F,
    ) -> (r: Result<Option<Self>, RequestError>)
        requires
            forall|length: L, unit: DistanceUnit|
                unit != DistanceUnit::Unspecified ==> #[trigger] present.requires((length, unit)),
        ensures
            from_xyz_outcome(referent(coords), units, *present, r),
    {
        let v = match coords {
            Some(v) => v,
            None => {
                return Ok(None);
            },
        };
        let unit = UnitSettings::distance(&units);
        if unit == DistanceUnit::Unspecified {
            return Err(RequestError::DistanceUnitUnspecified);
        }
        let x = present(v.x(), unit);
        let y = present(v.y(), unit);
        let z = present(v.z(), unit);
        Ok(Some(Vector3 { x, y, z }))
    }
}

/// What `GeodeticOutput::from_geodetic` may return.
///
/// No point gives no output, whatever the units. A point is refused for the
/// first unit that is missing, the distance before the angle. Otherwise
/// latitude and longitude are presented in the selected unit of angle and
/// the altitude in the selected unit of distance.
pub open spec fn from_geodetic_outcome<A, L, N, FA, FL>(
    geodetic: Option<Geodetic<A, L>>,
    units: Option<UnitSettings>,
    present_angle: FA,
    present_length: FL,
    outcome: Result<Option<GeodeticOutput<N>>, RequestError>,
) -> bool where FA: Fn(A, AngleUnit) -> N, FL: Fn(L, DistanceUnit) -> N {
    match geodetic {
        None => outcome == Ok::<Option<GeodeticOutput<N>>, RequestError>(None),
        Some(g) => match units_refusal(units) {
            Some(e) => outcome == Err::<Option<GeodeticOutput<N>>, RequestError>(e),
            None => {
                &&& outcome matches Ok(Some(out))
                &&& present_angle.ensures((g.lat, angle_unit_of(units)), out.lat)
                &&& present_angle.ensures((g.lon, angle_unit_of(units)), out.lon)
                &&& present_length.ensures((g.alt, distance_unit_of(units)), out.alt)
            },
        },
    }
}

impl<N> GeodeticOutput<N> {
    /// Presents a geodetic point in the selected units; `present_angle` and
    /// `present_length` turn one quantity into a number of a given unit.
    pub fn from_geodetic<A: Copy, L: Copy, FA, FL>(
        geodetic: Option<&Geodetic<A, L>>,
        units: Option<UnitSettings>,
        present_angle: &FA,
        present_length: &FL,
    ) -> (r: Result<Option<Self>, RequestError>) where
        FA: Fn(A, AngleUnit) -> N,
        FL: Fn(L, DistanceUnit) -> N,

        requires
            forall|angle: A, unit: AngleUnit|
                unit != AngleUnit::Unspecified ==> #[trigger] present_angle.requires((angle, unit)),
            forall|length: L, unit: DistanceUnit|
                unit != DistanceUnit::Unspecified ==> #[trigger] present_length.requires(
                    (length, unit),
                ),
        ensures
            from_geodetic_outcome(referent(geodetic), units, *present_angle, *present_length, r),
    {
        let g = match geodetic {
            Some(g) => g,
            None => {
                return Ok(None);
            },
        };
        let (distance, angle) = match UnitSettings::both(&units) {
            Ok(pair) => pair,
            Err(e) => {
                return Err(e);
            },
        };
        let lat = present_angle(g.lat, angle);
        let lon = present_angle(g.lon, angle);
        let alt = present_length(g.alt, distance);
        Ok(Some(GeodeticOutput { lat, lon, alt }))
    }
}

/// An angle that is present is presented in the given unit.
pub open spec fn presented<Q, U, N, F: Fn(Q, U) -> N>(
    quantity: Option<Q>,
    unit: U,
    present: F,
    outcome: Option<N>,
) -> bool {
    match quantity {
        None => outcome is None,
        Some(q) => outcome matches Some(n) && present.ensures((q, unit), n),
    }
}

/// What `LookAnglesResponse::from_look_angles` may return.
///
/// The units are looked at first, the distance before the angle, whether or
/// not any quantity is present. Then each quantity that is present is
/// presented in its unit, and the record of the computation is attached.
pub open spec fn from_look_angles_outcome<A, L, N, FA, FL>(
    look_angles: LookAngles<A, L>,
    metadata: Metadata,
    units: Option<UnitSettings>,
    present_angle: FA,
    present_length: FL,
    outcome: Result<LookAnglesResponse<N>, RequestError>,
) -> bool where FA: Fn(A, AngleUnit) -> N, FL: Fn(L, DistanceUnit) -> N {
    match units_refusal(units) {
        Some(e) => outcome == Err::<LookAnglesResponse<N>, RequestError>(e),
        None => {
            &&& outcome matches Ok(response)
            &&& response.metadata == Some(metadata_with_units(metadata, units))
            &&& presented(
                look_angles.azimuth,
                angle_unit_of(units),
                present_angle,
                response.azimuth,
            )
            &&& presented(
                look_angles.elevation,
                angle_unit_of(units),
                present_angle,
                response.elevation,
            )
            &&& presented(
                look_angles.range,
                distance_unit_of(units),
                present_length,
                response.range,
            )
        },
    }
}

impl<N> LookAnglesResponse<N> {
    /// The answer to a look-angles request, in the selected units.
    pub fn from_look_angles<A: Copy, L: Copy, FA, FL>(
        look_angles: &LookAngles<A, L>,
        metadata: Metadata,
        units: Option<UnitSettings>,
        present_angle: &FA,
        present_length: &FL,
    ) -> (r: Result<Self, RequestError>) where
        FA: Fn(A, AngleUnit) -> N,
        FL: Fn(L, DistanceUnit) -> N,

        requires
            forall|angle: A, unit: AngleUnit|
                unit != AngleUnit::Unspecified ==> #[trigger] present_angle.requires((angle, unit)),
            forall|length: L, unit: DistanceUnit|
                unit != DistanceUnit::Unspecified ==> #[trigger] present_length.requires(
                    (length, unit),
                ),
        ensures
            from_look_angles_outcome(
                *look_angles,
                metadata,
                units,
                *present_angle,
                *present_length,
                r,
            ),
    {
        let (distance, angle) = match UnitSettings::both(&units) {
            Ok(pair) => pair,
            Err(e) => {
                return Err(e);
            },
        };
        let azimuth = match look_angles.azimuth {
            Some(a) => Some(present_angle(a, angle)),
            None => None,
        };
        let elevation = match look_angles.elevation {
            Some(a) => Some(present_angle(a, angle)),
            None => None,
        };
        let range = match look_angles.range {
            Some(l) => Some(present_length(l, distance)),
            None => None,
        };
        let metadata = match ComputationMetadata::with_units(metadata, units) {
            Ok(m) => m,
            Err(e) => {
                return Err(e);
            },
        };
        Ok(LookAnglesResponse { metadata, azimuth, elevation, range })
    }
}

/// What `PositionResponse::from_position` may return.
///
/// Each frame that is present is presented as by `Vector3::from_xyz` and
/// `GeodeticOutput::from_geodetic`, and the first refusal among them, in the
/// order inertial, Earth-fixed, geodetic, is the refusal of the whole.
pub open spec fn from_position_outcome<A, L, N, FA, FL>(
    position: SatellitePosition<A, L>,
    metadata: Metadata,
    units: Option<UnitSettings>,
    present_angle: FA,
    present_length: FL,
    outcome: Result<PositionResponse<N>, RequestError>,
) -> bool where L: Copy, FA: Fn(A, AngleUnit) -> N, FL: Fn(L, DistanceUnit) -> N {
    let needs_distance = position.eci is Some || position.ecef is Some || position.geodetic is Some;
    if needs_distance && distance_unit_of(units) == DistanceUnit::Unspecified {
        outcome == Err::<PositionResponse<N>, RequestError>(RequestError::DistanceUnitUnspecified)
    } else if position.geodetic is Some && angle_unit_of(units) == AngleUnit::Unspecified {
        outcome == Err::<PositionResponse<N>, RequestError>(RequestError::AngleUnitUnspecified)
    } else {
        &&& outcome matches Ok(response)
        &&& response.metadata == Some(metadata_with_units(metadata, units))
        &&& from_xyz_outcome(
            position.eci,
            units,
            present_length,
            Ok::<Option<Vector3<N>>, RequestError>(response.eci),
        )
        &&& from_xyz_outcome(
            position.ecef,
            units,
            present_length,
            Ok::<Option<Vector3<N>>, RequestError>(response.ecef),
        )
        &&& from_geodetic_outcome(
            position.geodetic,
            units,
            present_angle,
            present_length,
            Ok::<Option<GeodeticOutput<N>>, RequestError>(response.geodetic),
        )
    }
}

impl<N> PositionResponse<N> {
    /// The answer to a position request, in the selected units.
    pub fn from_position<A: Copy, L: Copy, FA, FL>(
        position: &SatellitePosition<A, L>,
        metadata: Metadata,
        units: Option<UnitSettings>,
        present_angle: &FA,
        present_length: &FL,
    ) -> (r: Result<Self, RequestError>) where
        FA: Fn(A, AngleUnit) -> N,
        FL: Fn(L, DistanceUnit) -> N,

        requires
            forall|angle: A, unit: AngleUnit|
                unit != AngleUnit::Unspecified ==> #[trigger] present_angle.requires((angle, unit)),
            forall|length: L, unit: DistanceUnit|
                unit != DistanceUnit::Unspecified ==> #[trigger] present_length.requires(
                    (length, unit),
                ),
        ensures
            from_position_outcome(*position, metadata, units, *present_angle, *present_length, r),
    {
        let metadata = match ComputationMetadata::with_units(metadata, units) {
            Ok(m) => m,
            Err(e) => {
                return Err(e);
            },
        };
        let eci = match Vector3::from_xyz(position.eci.as_ref(), units, present_length) {
            Ok(v) => v,
            Err(e) => {
                return Err(e);
            },
        };
        let ecef = match Vector3::from_xyz(position.ecef.as_ref(), units, present_length) {
            Ok(v) => v,
            Err(e) => {
                return Err(e);
            },
        };
        let geodetic = match GeodeticOutput::from_geodetic(
            position.geodetic.as_ref(),
            units,
            present_angle,
            present_length,
        ) {
            Ok(v) => v,
            Err(e) => {
                return Err(e);
            },
        };
        Ok(PositionResponse { metadata, eci, ecef, geodetic })
    }
}

} // verus!
