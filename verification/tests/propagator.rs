use std::cell::Cell;
use std::f64::consts::TAU;
use trajectory_service::astro::coords::ecef::Ecef;
use trajectory_service::astro::coords::eci::Eci;
use trajectory_service::astro::coords::geodetic::Geodetic;
use trajectory_service::astro::coords::sez::Sez;
use trajectory_service::astro::look_angles::{topocentric, LookAnglesComputation};
use trajectory_service::astro::models::Tle;
use trajectory_service::astro::position::PositionComputation;
use trajectory_service::astro::propagator::Propagator;
use trajectory_service::astro::time::UtcDateTime;
use trajectory_service::domain::errors::PropagationError;
use trajectory_service::service::look_angles::get_look_angles_with_metadata;
use trajectory_service::service::position::get_position_with_metadata;

const LINE1: &str = "1 00005U 58002B   00179.78495062  .00000023  00000-0  28098-4 0  4753";
const LINE2: &str = "2 00005  34.2682 348.7242 1859667 331.7664  19.3264 10.82419157413667";

const A: f64 = 6378.137;
const F: f64 = 1.0 / 298.257_223_563;
const E2: f64 = F * (2.0 - F);

fn tle(line1: &str, line2: &str) -> Tle {
    Tle {
        norad_id: 5,
        satellite_name: "VANGUARD 1".to_string(),
        line1: line1.to_string(),
        line2: line2.to_string(),
        epoch: UtcDateTime::new(2000, 6, 27, 18, 50, 19, 733_568_000).unwrap(),
    }
}

fn epoch() -> UtcDateTime {
    UtcDateTime::new(2000, 6, 27, 18, 50, 19, 733_568_000).unwrap()
}

/// Replaces the last character of a line by its checksum digit.
fn with_checksum(line: &str) -> String {
    let body = &line[..68];
    let sum: u32 = body
        .chars()
        .map(|c| match c {
            '-' => 1,
            c => c.to_digit(10).unwrap_or(0),
        })
        .sum();
    format!("{body}{}", sum % 10)
}

fn gst(t: &UtcDateTime) -> f64 {
    let j = t.julian_date();
    let jd = j.day_number as f64 - 0.5
        + (f64::from(j.hour) + f64::from(j.minute) / 60.0 + f64::from(j.second) / 3600.0) / 24.0;
    let c = (jd - 2_451_545.0) / 36525.0;
    let seconds = (-6.2e-6f64)
        .mul_add(c, 0.093_104)
        .mul_add(c, 876_600.0 * 3600.0 + 8_640_184.812_866)
        .mul_add(c, 67310.54841);
    let wrapped = (seconds / 240.0).to_radians() % TAU;
    if wrapped < 0.0 {
        wrapped + TAU
    } else {
        wrapped
    }
}

fn frame(p: sgp4::Prediction) -> Eci<f64> {
    Eci::new(p.position[0], p.position[1], p.position[2])
}

fn rotate(eci: &Eci<f64>, gst: f64) -> Ecef<f64> {
    let (sin, cos) = (gst.sin(), gst.cos());
    Ecef::new(cos.mul_add(eci.x, sin * eci.y), (-sin).mul_add(eci.x, cos * eci.y), eci.z)
}

fn locate(g: &Geodetic<f64, f64>) -> Ecef<f64> {
    let n = A / (1.0 - E2 * g.lat.sin() * g.lat.sin()).sqrt();
    Ecef::new(
        (n + g.alt) * g.lat.cos() * g.lon.cos(),
        (n + g.alt) * g.lat.cos() * g.lon.sin(),
        (n * (1.0 - E2) + g.alt) * g.lat.sin(),
    )
}

fn project(rho: &Ecef<f64>, o: &Geodetic<f64, f64>) -> Sez<f64> {
    let (sin_lat, cos_lat) = (o.lat.sin(), o.lat.cos());
    let (sin_lon, cos_lon) = (o.lon.sin(), o.lon.cos());
    Sez::new(
        -sin_lat * cos_lon * rho.x - sin_lat * sin_lon * rho.y + cos_lat * rho.z,
        -sin_lon * rho.x + cos_lon * rho.y,
        cos_lat * cos_lon * rho.x + cos_lat * sin_lon * rho.y + sin_lat * rho.z,
    )
}

fn range_of(v: &Sez<f64>) -> f64 {
    let r = (v.south * v.south + v.east * v.east + v.zenith * v.zenith).sqrt();
    if r == 0.0 {
        f64::EPSILON
    } else {
        r
    }
}

fn azimuth_of(v: &Sez<f64>) -> f64 {
    v.east.atan2(v.south).rem_euclid(TAU)
}

fn elevation_of(v: &Sez<f64>, range: &f64) -> f64 {
    (v.zenith / range).asin()
}

fn observer() -> Geodetic<f64, f64> {
    Geodetic::new(45.0f64.to_radians(), (-75.0f64).to_radians(), 0.1)
}

fn look(at: &UtcDateTime) -> (f64, f64, f64) {
    let angle = gst(at);
    let result = Propagator::from_tle(&tle(LINE1, LINE2))
        .unwrap()
        .look_angles_at(
            at,
            &observer(),
            &LookAnglesComputation { azimuth: true, elevation: true, range: true },
            frame,
            |eci: &Eci<f64>, o: &Geodetic<f64, f64>| {
                topocentric(
                    eci,
                    o,
                    |v: &Eci<f64>| rotate(v, angle),
                    locate,
                    &|a: f64, b: f64| a - b,
                    project,
                )
            },
            range_of,
            azimuth_of,
            elevation_of,
        )
        .unwrap();
    (result.azimuth.unwrap(), result.elevation.unwrap(), result.range.unwrap())
}

#[test]
fn position_at_the_epoch_matches_the_reference_state() {
    let p = Propagator::from_tle(&tle(LINE1, LINE2)).unwrap().eci_at(&epoch()).unwrap();
    let reference = [7022.46529266, -1400.08296755, 0.03995155];
    for i in 0..3 {
        assert!((p.position[i] - reference[i]).abs() < 0.05, "{:?}", p.position);
    }
}

#[test]
fn position_six_hours_later_matches_the_reference_state() {
    let at = UtcDateTime::new(2000, 6, 28, 0, 50, 19, 733_568_000).unwrap();
    let p = Propagator::from_tle(&tle(LINE1, LINE2)).unwrap().eci_at(&at).unwrap();
    let reference = [-7154.03120202, -3783.17682504, -3536.19412294];
    for i in 0..3 {
        assert!((p.position[i] - reference[i]).abs() < 0.5, "{:?}", p.position);
    }
}

#[test]
fn look_angles_at_the_epoch_match_the_reference_triple() {
    let (azimuth, elevation, range) = look(&epoch());
    assert!((azimuth - 5.331359819253252).abs() < 1e-5, "{azimuth}");
    assert!((elevation - -1.0126874513193282).abs() < 1e-5, "{elevation}");
    assert!((range - 11730.433822412755).abs() < 0.05, "{range}");
}

#[test]
fn look_angles_six_hours_later_match_the_reference_triple() {
    let at = UtcDateTime::new(2000, 6, 28, 0, 50, 19, 733_568_000).unwrap();
    let (azimuth, elevation, range) = look(&at);
    assert!((azimuth - 3.2471901574911337).abs() < 1e-4, "{azimuth}");
    assert!((elevation - -0.36919032339094005).abs() < 1e-4, "{elevation}");
    assert!((range - 8807.910987287023).abs() < 0.5, "{range}");
}

#[test]
fn look_angles_ninety_minutes_after_the_epoch() {
    let at = UtcDateTime::new(2000, 6, 27, 20, 20, 19, 733_568_000).unwrap();
    let (azimuth, elevation, range) = look(&at);
    assert!((0.0..TAU).contains(&azimuth));
    assert!((azimuth - 2.276047023920801).abs() < 1e-9, "azimuth {azimuth:?}");
    assert!((elevation - -0.48329237692437266).abs() < 1e-9, "elevation {elevation:?}");
    assert!((range - 10098.380304283266).abs() < 1e-6, "range {range:?}");
}

#[test]
fn sidereal_angle_advances_at_the_sidereal_rate() {
    let a = UtcDateTime::new(2000, 6, 27, 18, 50, 19, 0).unwrap();
    let b = UtcDateTime::new(2000, 6, 27, 18, 50, 20, 0).unwrap();
    let step = (gst(&b) - gst(&a)).rem_euclid(TAU);
    assert!((step - TAU * 1.002_737_811_91 / 86400.0).abs() < 1e-8, "{step}");
}

#[test]
fn line_of_wrong_length_is_a_parse_error() {
    let r = Propagator::from_tle(&tle(&LINE1[..68], LINE2));
    assert!(matches!(r, Err(PropagationError::TleParse(_))));
    let r = Propagator::from_tle(&tle("", ""));
    assert!(matches!(r, Err(PropagationError::TleParse(_))));
}

#[test]
fn wrong_checksum_is_a_parse_error() {
    let bad = format!("{}4", &LINE1[..68]);
    let r = Propagator::from_tle(&tle(&bad, LINE2));
    assert!(matches!(r, Err(PropagationError::TleParse(_))));
}

#[test]
fn checksum_column_below_digits_is_refused_before_parsing() {
    for last in [' ', '-', '/', '!'] {
        let bad = format!("{}{last}", &LINE1[..68]);
        assert_eq!(bad.len(), 69);
        let r = Propagator::from_tle(&tle(&bad, LINE2));
        assert!(matches!(r, Err(PropagationError::TleChecksumNotDigit)));
        let bad2 = format!("{}{last}", &LINE2[..68]);
        let r = Propagator::from_tle(&tle(LINE1, &bad2));
        assert!(matches!(r, Err(PropagationError::TleChecksumNotDigit)));
    }
    // a line of another length goes to the parser, which refuses it for its length
    let r = Propagator::from_tle(&tle(&format!("{} ", &LINE1[..67]), LINE2));
    assert!(matches!(r, Err(PropagationError::TleParse(_))));
}

#[test]
fn lines_that_are_not_ascii_are_refused_before_parsing() {
    let accented = format!("{}\u{e9}", &LINE1[..67]);
    assert_eq!(accented.len(), 69);
    let r = Propagator::from_tle(&tle(&accented, LINE2));
    assert!(matches!(r, Err(PropagationError::TleNotAscii)));
    let r = Propagator::from_tle(&tle(LINE1, "2 \u{2603}"));
    assert!(matches!(r, Err(PropagationError::TleNotAscii)));
    // the name may hold any character
    let mut named = tle(LINE1, LINE2);
    named.satellite_name = "Спутник".to_string();
    assert!(Propagator::from_tle(&named).is_ok());
}

#[test]
fn checksum_column_above_digits_is_a_parse_error() {
    let bad = format!("{}A", &LINE1[..68]);
    let r = Propagator::from_tle(&tle(&bad, LINE2));
    assert!(matches!(r, Err(PropagationError::TleParse(_))));
}

#[test]
fn elements_without_mean_motion_cannot_be_propagated() {
    // the mean motion, columns 53 to 63 of the second line, set to zero
    let still = with_checksum(&format!("{} 0.00000000{}", &LINE2[..52], &LINE2[63..]));
    assert_eq!(still.len(), 69);
    let r = Propagator::from_tle(&tle(LINE1, &still));
    assert!(matches!(r, Err(PropagationError::ElementsCreation(_))), "{:?}", r.err());
}

#[test]
fn instant_centuries_from_the_epoch_has_no_offset() {
    let far = UtcDateTime::new(2400, 1, 1, 0, 0, 0, 0).unwrap();
    let r = Propagator::from_tle(&tle(LINE1, LINE2)).unwrap().eci_at(&far);
    assert!(matches!(r, Err(PropagationError::DatetimeToMinutesSinceEpochFailed(_))));
}

#[test]
fn instants_at_the_ends_of_the_calendar_are_handed_to_the_kernel() {
    let propagator = Propagator::from_tle(&tle(LINE1, LINE2)).unwrap();
    for at in [
        UtcDateTime::new(-262_143, 1, 1, 0, 0, 0, 0).unwrap(),
        UtcDateTime::new(262_142, 12, 31, 23, 59, 59, 1_999_999_999).unwrap(),
        UtcDateTime::new(0, 2, 29, 12, 0, 0, 0).unwrap(),
    ] {
        let r = propagator.eci_at(&at);
        assert!(matches!(r, Err(PropagationError::DatetimeToMinutesSinceEpochFailed(_))));
    }
    // within reach of the epoch: a leap second, and the turn of a leap day
    for at in [
        UtcDateTime::new(2000, 6, 30, 23, 59, 59, 1_500_000_000).unwrap(),
        UtcDateTime::new(2000, 2, 29, 23, 59, 59, 999_999_999).unwrap(),
        UtcDateTime::new(1999, 12, 31, 0, 0, 0, 0).unwrap(),
    ] {
        assert!(propagator.eci_at(&at).is_ok());
    }
}

#[test]
fn diverging_orbit_fails_to_propagate() {
    let line1 = "1 33334U 78066F   06174.85818871  .00000620  00000-0  10000-3 0  6806";
    let line2 = "2 33334  68.4714 236.1303 5602877 123.7484 302.5767  0.00001000 67521";
    let at = UtcDateTime::new(2006, 6, 23, 20, 35, 47, 0).unwrap();
    let r = Propagator::from_tle(&tle(line1, line2)).unwrap().eci_at(&at);
    assert!(matches!(r, Err(PropagationError::PropagationFailed(_))), "{:?}", r.err());
}

#[test]
fn position_at_runs_the_kernel_only_when_asked() {
    let propagator = Propagator::from_tle(&tle(LINE1, LINE2)).unwrap();
    let far = UtcDateTime::new(2400, 1, 1, 0, 0, 0, 0).unwrap();
    let framed = Cell::new(0u32);
    let run = |at: &UtcDateTime, selection: PositionComputation| {
        propagator.position_at(
            at,
            &selection,
            |p: sgp4::Prediction| {
                framed.set(framed.get() + 1);
                frame(p)
            },
            |eci: &Eci<f64>| rotate(eci, gst(at)),
            |ecef: &Ecef<f64>| Geodetic::new(ecef.z.atan2(ecef.x.hypot(ecef.y)), ecef.y.atan2(ecef.x), 0.0),
        )
    };
    // nothing selected: no propagation, so even an instant out of reach succeeds
    let nothing = run(&far, PositionComputation::default()).unwrap();
    assert!(nothing.eci.is_none() && nothing.ecef.is_none() && nothing.geodetic.is_none());
    assert_eq!(framed.get(), 0);
    let failed = run(&far, PositionComputation { eci: false, ecef: false, geodetic: true });
    assert!(matches!(failed, Err(PropagationError::DatetimeToMinutesSinceEpochFailed(_))));
    let only = run(&epoch(), PositionComputation { eci: false, ecef: false, geodetic: true }).unwrap();
    assert!(only.eci.is_none() && only.ecef.is_none() && only.geodetic.is_some());
    assert_eq!(framed.get(), 1);
    let both = run(&epoch(), PositionComputation { eci: true, ecef: true, geodetic: false }).unwrap();
    let (eci, ecef) = (both.eci.unwrap(), both.ecef.unwrap());
    assert!((eci.x - 7022.465).abs() < 0.05);
    assert_eq!(ecef.z, eci.z);
    assert!((ecef.x - -6198.749437024875).abs() < 0.05 && (ecef.y - 3584.7951851705157).abs() < 0.05);
}

#[test]
fn service_attaches_the_record_of_the_computation() {
    let at = epoch();
    let (position, metadata) = get_position_with_metadata(
        tle(LINE1, LINE2),
        at,
        &PositionComputation { eci: true, ecef: false, geodetic: false },
        frame,
        |eci: &Eci<f64>| rotate(eci, 0.0),
        |ecef: &Ecef<f64>| Geodetic::new(ecef.x, ecef.y, ecef.z),
    )
    .unwrap();
    assert!(position.eci.is_some() && position.ecef.is_none());
    assert_eq!(metadata.propagation_model, "SGP4");
    assert_eq!(metadata.norad_id, 5);
    assert_eq!(metadata.satellite_name, "VANGUARD 1");
    assert_eq!(metadata.computation_time.timestamp(), at.timestamp());
    assert_eq!(metadata.tle_epoch.nanosecond(), 733_568_000);

    let (angles, metadata) = get_look_angles_with_metadata(
        tle(LINE1, LINE2),
        at,
        &observer(),
        &LookAnglesComputation { azimuth: false, elevation: false, range: true },
        frame,
        |eci: &Eci<f64>, _: &Geodetic<f64, f64>| Sez::new(eci.x, eci.y, eci.z),
        range_of,
        azimuth_of,
        elevation_of,
    )
    .unwrap();
    assert!(angles.azimuth.is_none() && angles.elevation.is_none());
    assert!((angles.range.unwrap() - 7160.0).abs() < 10.0);
    assert_eq!(metadata.propagation_model, "SGP4");
}

#[test]
fn service_refuses_a_malformed_element_set_even_for_an_empty_selection() {
    let r = get_position_with_metadata(
        tle("1", "2"),
        epoch(),
        &PositionComputation::default(),
        frame,
        |eci: &Eci<f64>| rotate(eci, 0.0),
        |ecef: &Ecef<f64>| Geodetic::new(ecef.x, ecef.y, ecef.z),
    );
    assert!(matches!(r, Err(PropagationError::TleParse(_))));
}
