use trajectory_service::astro::coords::ecef::Ecef;
use trajectory_service::astro::coords::eci::Eci;
use trajectory_service::astro::coords::geodetic::Geodetic;
use trajectory_service::astro::models::{LookAngles, SatellitePosition, Tle};
use trajectory_service::astro::time::UtcDateTime;
use trajectory_service::domain::models::{ComputationMetadata, SatelliteIdentifier};
use trajectory_service::transport::adapter::tle_client::{tle_of_answer, TleMessage};
use trajectory_service::transport::grpc::converters::Timestamp;
use trajectory_service::transport::grpc::messages::{
    AngleUnit, ComputationMetadata as WireMetadata, DistanceUnit, GeodeticOutput, HasXYZ,
    LookAnglesResponse, PositionResponse, UnitSettings, Vector3,
};
use trajectory_service::transport::grpc::status::{RequestError, StatusCode};
use trajectory_service::transport::grpc::trajectory::{
    look_angles_request, position_request, AltitudeInput, AngleInput, GeodeticInput,
    IdentifierInput,
};

/// Lengths are kilometers.
fn length_in(km: f64, unit: DistanceUnit) -> f64 {
    match unit {
        DistanceUnit::Meters => km * 1000.0,
        DistanceUnit::Kilometers => km,
        DistanceUnit::Miles => km / 1.609_344,
        DistanceUnit::Unspecified => unreachable!(),
    }
}

/// Angles are radians.
fn angle_in(rad: f64, unit: AngleUnit) -> f64 {
    match unit {
        AngleUnit::Degrees => rad.to_degrees(),
        AngleUnit::Radians => rad,
        AngleUnit::Unspecified => unreachable!(),
    }
}

fn units(distance_unit: DistanceUnit, angle_unit: AngleUnit) -> Option<UnitSettings> {
    Some(UnitSettings { distance_unit, angle_unit })
}

fn metadata() -> ComputationMetadata {
    ComputationMetadata::new(
        Tle {
            norad_id: 25544,
            satellite_name: "ISS".to_string(),
            line1: String::new(),
            line2: String::new(),
            epoch: UtcDateTime::new(1970, 1, 2, 0, 0, 0, 9).unwrap(),
        },
        UtcDateTime::new(1970, 1, 1, 0, 1, 0, 0).unwrap(),
    )
}

#[test]
fn vector_is_presented_in_the_selected_unit() {
    let eci = Eci::new(1.0, 2.0, 3.0);
    let v = Vector3::from_xyz(Some(&eci), units(DistanceUnit::Meters, AngleUnit::Unspecified), &length_in)
        .unwrap()
        .unwrap();
    assert_eq!((v.x, v.y, v.z), (1000.0, 2000.0, 3000.0));
    let ecef = Ecef::new(1.609_344, 0.0, -1.609_344);
    let v = Vector3::from_xyz(Some(&ecef), units(DistanceUnit::Miles, AngleUnit::Degrees), &length_in)
        .unwrap()
        .unwrap();
    assert_eq!((v.x, v.y, v.z), (1.0, 0.0, -1.0));
    let v = Vector3::from_xyz(Some(&ecef), units(DistanceUnit::Kilometers, AngleUnit::Degrees), &length_in)
        .unwrap()
        .unwrap();
    assert_eq!((v.x, v.y, v.z), (1.609_344, 0.0, -1.609_344));
}

#[test]
fn vector_without_unit_of_distance_is_refused() {
    let eci = Eci::new(1.0, 2.0, 3.0);
    let r = Vector3::from_xyz(Some(&eci), None, &length_in);
    assert!(matches!(r, Err(RequestError::DistanceUnitUnspecified)));
    let r = Vector3::from_xyz(Some(&eci), units(DistanceUnit::Unspecified, AngleUnit::Degrees), &length_in);
    assert!(matches!(r, Err(RequestError::DistanceUnitUnspecified)));
}

#[test]
fn absent_vector_needs_no_unit() {
    let r = Vector3::from_xyz(None::<&Eci<f64>>, None, &length_in).unwrap();
    assert!(r.is_none());
    let r = GeodeticOutput::from_geodetic(None::<&Geodetic<f64, f64>>, None, &angle_in, &length_in)
        .unwrap();
    assert!(r.is_none());
}

#[test]
fn geodetic_point_is_presented_in_the_selected_units() {
    let g = Geodetic::new(std::f64::consts::FRAC_PI_2, -std::f64::consts::PI, 0.5);
    let out = GeodeticOutput::from_geodetic(
        Some(&g),
        units(DistanceUnit::Meters, AngleUnit::Degrees),
        &angle_in,
        &length_in,
    )
    .unwrap()
    .unwrap();
    assert_eq!((out.lat, out.lon, out.alt), (90.0, -180.0, 500.0));
    let out = GeodeticOutput::from_geodetic(
        Some(&g),
        units(DistanceUnit::Kilometers, AngleUnit::Radians),
        &angle_in,
        &length_in,
    )
    .unwrap()
    .unwrap();
    assert_eq!((out.lat, out.lon, out.alt), (g.lat, g.lon, 0.5));
}

#[test]
fn geodetic_point_looks_at_the_distance_first() {
    let g = Geodetic::new(0.0, 0.0, 0.0);
    let r = GeodeticOutput::from_geodetic(Some(&g), None, &angle_in, &length_in);
    assert!(matches!(r, Err(RequestError::DistanceUnitUnspecified)));
    let r = GeodeticOutput::from_geodetic(
        Some(&g),
        units(DistanceUnit::Miles, AngleUnit::Unspecified),
        &angle_in,
        &length_in,
    );
    assert!(matches!(r, Err(RequestError::AngleUnitUnspecified)));
    let r = GeodeticOutput::from_geodetic(
        Some(&g),
        units(DistanceUnit::Unspecified, AngleUnit::Radians),
        &angle_in,
        &length_in,
    );
    assert!(matches!(r, Err(RequestError::DistanceUnitUnspecified)));
}

#[test]
fn look_angles_answer() {
    let angles = LookAngles { azimuth: Some(std::f64::consts::PI), elevation: None, range: Some(2.0) };
    let u = units(DistanceUnit::Meters, AngleUnit::Degrees);
    let r = LookAnglesResponse::from_look_angles(&angles, metadata(), u, &angle_in, &length_in).unwrap();
    assert_eq!((r.azimuth, r.elevation, r.range), (Some(180.0), None, Some(2000.0)));
    let m = r.metadata.unwrap();
    assert_eq!(m.propagation_model, "SGP4");
    assert_eq!(m.norad_id, 25544);
    assert_eq!(m.satellite_name, "ISS");
    assert_eq!(m.computation_time, Some(Timestamp { seconds: 60, nanos: 0 }));
    assert_eq!(m.tle_epoch, Some(Timestamp { seconds: 86400, nanos: 9 }));
    assert_eq!(m.units, u);
}

#[test]
fn look_angles_answer_needs_both_units_even_when_empty() {
    let nothing: LookAngles<f64, f64> = LookAngles { azimuth: None, elevation: None, range: None };
    let r = LookAnglesResponse::from_look_angles(&nothing, metadata(), None, &angle_in, &length_in);
    assert!(matches!(r, Err(RequestError::DistanceUnitUnspecified)));
    let r = LookAnglesResponse::from_look_angles(
        &nothing,
        metadata(),
        units(DistanceUnit::Meters, AngleUnit::Unspecified),
        &angle_in,
        &length_in,
    );
    assert!(matches!(r, Err(RequestError::AngleUnitUnspecified)));
    let r = LookAnglesResponse::from_look_angles(
        &nothing,
        metadata(),
        units(DistanceUnit::Meters, AngleUnit::Radians),
        &angle_in,
        &length_in,
    )
    .unwrap();
    assert!(r.azimuth.is_none() && r.elevation.is_none() && r.range.is_none());
}

#[test]
fn position_answer() {
    let position = SatellitePosition {
        eci: Some(Eci::new(1.0, 2.0, 3.0)),
        ecef: None,
        geodetic: Some(Geodetic::new(1.0, 2.0, 3.0)),
    };
    let u = units(DistanceUnit::Kilometers, AngleUnit::Radians);
    let r = PositionResponse::from_position(&position, metadata(), u, &angle_in, &length_in).unwrap();
    let eci = r.eci.unwrap();
    assert_eq!((eci.x, eci.y, eci.z), (1.0, 2.0, 3.0));
    assert!(r.ecef.is_none());
    let g = r.geodetic.unwrap();
    assert_eq!((g.lat, g.lon, g.alt), (1.0, 2.0, 3.0));
    assert_eq!(r.metadata.unwrap().units, u);
}

#[test]
fn position_answer_needs_only_the_units_it_uses() {
    let empty: SatellitePosition<f64, f64> = SatellitePosition { eci: None, ecef: None, geodetic: None };
    let r = PositionResponse::from_position(&empty, metadata(), None, &angle_in, &length_in).unwrap();
    assert!(r.eci.is_none() && r.ecef.is_none() && r.geodetic.is_none());
    assert!(r.metadata.unwrap().units.is_none());

    let vectors = SatellitePosition {
        eci: None,
        ecef: Some(Ecef::new(1.0, 2.0, 3.0)),
        geodetic: None::<Geodetic<f64, f64>>,
    };
    let u = units(DistanceUnit::Meters, AngleUnit::Unspecified);
    let r = PositionResponse::from_position(&vectors, metadata(), u, &angle_in, &length_in).unwrap();
    assert_eq!(r.ecef.unwrap().x, 1000.0);
    let r = PositionResponse::from_position(&vectors, metadata(), None, &angle_in, &length_in);
    assert!(matches!(r, Err(RequestError::DistanceUnitUnspecified)));

    let point = SatellitePosition {
        eci: None,
        ecef: None,
        geodetic: Some(Geodetic::new(1.0, 2.0, 3.0)),
    };
    let r = PositionResponse::from_position(&point, metadata(), u, &angle_in, &length_in);
    assert!(matches!(r, Err(RequestError::AngleUnitUnspecified)));
}

#[test]
fn wire_metadata_always_succeeds() {
    let m = WireMetadata::with_units(metadata(), None).unwrap().unwrap();
    assert_eq!(m.computation_time, Some(Timestamp { seconds: 60, nanos: 0 }));
    assert!(m.units.is_none());
}

#[test]
fn components_can_be_read() {
    let eci = Eci::new(1, 2, 3);
    assert_eq!((HasXYZ::x(&eci), HasXYZ::y(&eci), HasXYZ::z(&eci)), (1, 2, 3));
    let ecef = Ecef::new(4, 5, 6);
    assert_eq!((HasXYZ::x(&ecef), HasXYZ::y(&ecef), HasXYZ::z(&ecef)), (4, 5, 6));
}

#[test]
fn units_resolve_in_order() {
    assert_eq!(UnitSettings::distance(&None), DistanceUnit::Unspecified);
    assert_eq!(UnitSettings::angle(&None), AngleUnit::Unspecified);
    let u = units(DistanceUnit::Miles, AngleUnit::Degrees);
    assert_eq!(UnitSettings::distance(&u), DistanceUnit::Miles);
    assert_eq!(UnitSettings::angle(&u), AngleUnit::Degrees);
    assert_eq!(UnitSettings::both(&u).unwrap(), (DistanceUnit::Miles, AngleUnit::Degrees));
    assert!(matches!(UnitSettings::both(&None), Err(RequestError::DistanceUnitUnspecified)));
}

fn angle_of(input: AngleInput<f64>) -> f64 {
    match input {
        AngleInput::Radians(r) => r,
        AngleInput::Degrees(d) => d.to_radians(),
    }
}

/// Altitudes are meters.
fn length_of(input: AltitudeInput<f64>) -> f64 {
    match input {
        AltitudeInput::Meters(m) => m,
        AltitudeInput::Kilometers(km) => km * 1000.0,
    }
}

fn place(lat: bool, lon: bool, alt: bool) -> GeodeticInput<f64> {
    GeodeticInput {
        lat: lat.then_some(AngleInput::Degrees(180.0)),
        lon: lon.then_some(AngleInput::Radians(0.25)),
        alt: alt.then_some(AltitudeInput::Kilometers(0.5)),
    }
}

#[test]
fn observer_is_read_in_the_units_it_comes_in() {
    let g = place(true, true, true).into_geodetic(&angle_of, length_of).unwrap();
    assert_eq!((g.lat, g.lon, g.alt), (std::f64::consts::PI, 0.25, 500.0));
    let g = GeodeticInput {
        lat: Some(AngleInput::Radians(1.0)),
        lon: Some(AngleInput::Degrees(-90.0)),
        alt: Some(AltitudeInput::Meters(12.0)),
    }
    .into_geodetic(&angle_of, length_of)
    .unwrap();
    assert_eq!((g.lat, g.lon, g.alt), (1.0, -std::f64::consts::FRAC_PI_2, 12.0));
}

#[test]
fn first_missing_part_of_the_observer_is_reported() {
    let r = place(false, false, false).into_geodetic(&angle_of, length_of);
    assert!(matches!(r, Err(RequestError::MissingLatitude)));
    let r = place(true, false, false).into_geodetic(&angle_of, length_of);
    assert!(matches!(r, Err(RequestError::MissingLongitude)));
    let r = place(true, true, false).into_geodetic(&angle_of, length_of);
    assert!(matches!(r, Err(RequestError::MissingAltitude)));
    let r = place(false, true, true).into_geodetic(&angle_of, length_of);
    assert!(matches!(r, Err(RequestError::MissingLatitude)));
}

fn named(id: u32) -> Option<IdentifierInput> {
    Some(IdentifierInput { kind: Some(SatelliteIdentifier::NoradId(id)) })
}

#[test]
fn position_request_is_checked_in_order() {
    let stamp = Some(Timestamp { seconds: 60, nanos: 0 });
    assert!(matches!(position_request(None, None), Err(RequestError::MissingIdentifier)));
    assert!(matches!(
        position_request(Some(IdentifierInput { kind: None }), None),
        Err(RequestError::MissingIdentifierKind)
    ));
    assert!(matches!(position_request(named(1), None), Err(RequestError::MissingDatetime)));
    assert!(matches!(
        position_request(named(1), Some(Timestamp { seconds: 0, nanos: -5 })),
        Err(RequestError::Timestamp(_))
    ));
    assert!(matches!(
        position_request(named(1), Some(Timestamp { seconds: i64::MAX, nanos: 0 })),
        Err(RequestError::Timestamp(_))
    ));
    let (satellite, instant) = position_request(named(7), stamp).unwrap();
    assert!(matches!(satellite, SatelliteIdentifier::NoradId(7)));
    assert_eq!(instant.timestamp(), 60);
    let by_name = Some(IdentifierInput { kind: Some(SatelliteIdentifier::Name("ISS".to_string())) });
    let (satellite, _) = position_request(by_name, stamp).unwrap();
    assert!(matches!(satellite, SatelliteIdentifier::Name(n) if n == "ISS"));
}

#[test]
fn look_angles_request_is_checked_in_order() {
    let stamp = Some(Timestamp { seconds: 60, nanos: 0 });
    let r = look_angles_request(None, None, None::<GeodeticInput<f64>>, &angle_of, length_of);
    assert!(matches!(r, Err(RequestError::MissingIdentifier)));
    let r = look_angles_request(named(1), None, Some(place(true, true, true)), &angle_of, length_of);
    assert!(matches!(r, Err(RequestError::MissingDatetime)));
    let r = look_angles_request(named(1), stamp, None::<GeodeticInput<f64>>, &angle_of, length_of);
    assert!(matches!(r, Err(RequestError::MissingObserver)));
    let r = look_angles_request(named(1), stamp, Some(place(true, false, true)), &angle_of, length_of);
    assert!(matches!(r, Err(RequestError::MissingLongitude)));
    let (_, instant, g) =
        look_angles_request(named(1), stamp, Some(place(true, true, true)), &angle_of, length_of)
            .unwrap();
    assert_eq!(instant.minute(), 1);
    assert_eq!(g.alt, 500.0);
}

fn answer(epoch: Option<Timestamp>) -> Option<TleMessage> {
    Some(TleMessage {
        norad_id: 25544,
        satellite_name: "ISS".to_string(),
        line1: "one".to_string(),
        line2: "two".to_string(),
        epoch,
    })
}

#[test]
fn answer_of_the_tle_source_is_handed_on() {
    let id = SatelliteIdentifier::NoradId(25544);
    let tle = tle_of_answer(&id, answer(Some(Timestamp { seconds: 86_400, nanos: 1 }))).unwrap();
    assert_eq!((tle.norad_id, tle.satellite_name.as_str()), (25544, "ISS"));
    assert_eq!((tle.line1.as_str(), tle.line2.as_str()), ("one", "two"));
    assert_eq!((tle.epoch.year(), tle.epoch.month(), tle.epoch.day()), (1970, 1, 2));
    assert_eq!(tle.epoch.nanosecond(), 1);
}

#[test]
fn unknown_satellite_is_not_found() {
    let e = tle_of_answer(&SatelliteIdentifier::NoradId(25544), None).unwrap_err();
    assert_eq!(e.code, StatusCode::NotFound);
    assert_eq!(e.message, "TLE not found for NORAD ID 25544");
    let e = tle_of_answer(&SatelliteIdentifier::Name("ISS".to_string()), None).unwrap_err();
    assert_eq!(e.message, "TLE not found for Satellite 'ISS'");
}

#[test]
fn element_set_without_usable_epoch_is_refused() {
    let id = SatelliteIdentifier::NoradId(1);
    let e = tle_of_answer(&id, answer(None)).unwrap_err();
    assert_eq!((e.code, e.message.as_str()), (StatusCode::InvalidArgument, "Missing epoch"));
    let e = tle_of_answer(&id, answer(Some(Timestamp { seconds: 0, nanos: -1 }))).unwrap_err();
    assert_eq!((e.code, e.message.as_str()), (StatusCode::Internal, "Internal server error"));
    let e = tle_of_answer(&id, answer(Some(Timestamp { seconds: i64::MIN, nanos: 0 }))).unwrap_err();
    assert_eq!((e.code, e.message.as_str()), (StatusCode::Internal, "Internal server error"));
}
