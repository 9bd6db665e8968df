use std::cell::Cell;
use trajectory_service::astro::coords::ecef::Ecef;
use trajectory_service::astro::coords::geodetic::{Geodetic, MAX_LATITUDE_ITERATIONS};

const A: f64 = 6378.137;
const F: f64 = 1.0 / 298.257_223_563;
const E2: f64 = F * (2.0 - F);

fn to_ecef(g: &Geodetic<f64, f64>) -> Ecef<f64> {
    let n = A / (1.0 - E2 * g.lat.sin() * g.lat.sin()).sqrt();
    Ecef::new(
        (n + g.alt) * g.lat.cos() * g.lon.cos(),
        (n + g.alt) * g.lat.cos() * g.lon.sin(),
        (n * (1.0 - E2) + g.alt) * g.lat.sin(),
    )
}

fn longitude_of(v: &Ecef<f64>) -> f64 {
    v.y.atan2(v.x)
}

fn start(v: &Ecef<f64>) -> f64 {
    v.z.atan2(v.x.hypot(v.y) * (1.0 - E2))
}

fn refine(v: &Ecef<f64>, lat: &f64) -> (f64, f64) {
    let r = v.x.hypot(v.y);
    let n = A / (E2 * lat.sin()).mul_add(-lat.sin(), 1.0).sqrt();
    let h = r / lat.cos() - n;
    ((E2 * n).mul_add(lat.sin(), v.z).atan2(r), h)
}

fn settled(old: &f64, new: &f64) -> bool {
    (new - old).abs() < 1e-12
}

fn solve(v: &Ecef<f64>) -> Option<Geodetic<f64, f64>> {
    Geodetic::from_ecef(v, longitude_of, start, &refine, &settled)
}

#[test]
fn round_trip_reproduces_the_altitude_where_the_radius_is_well_conditioned() {
    for lat_deg in [-75.0, 0.0, 0.001, 30.0, 75.0] {
        for lon_deg in [-179.0, -90.0, 0.0, 12.5, 90.0, 179.0] {
            for alt in [0.0, 0.4, 400.0, 20_200.0, 35_786.0] {
                let point = Geodetic::new(f64::to_radians(lat_deg), f64::to_radians(lon_deg), alt);
                let back = solve(&to_ecef(&point)).unwrap();
                assert!((back.lat - point.lat).abs() < 1e-9);
                assert!((back.lon - point.lon).abs() < 1e-9);
                assert!((back.alt - point.alt).abs() < 1e-9, "alt {lat_deg} {lon_deg} {alt}");
            }
        }
    }
}

#[test]
fn altitude_is_that_of_the_estimate_before_the_last() {
    // The altitude belongs to the latitude estimate that the last step was given, which may
    // differ from the settled latitude by the tolerance: on a high orbit that shows.
    let point = Geodetic::new(f64::to_radians(45.0), 0.0, 35_786.0);
    let back = solve(&to_ecef(&point)).unwrap();
    assert!((back.lat - point.lat).abs() < 1e-9);
    assert!((back.alt - point.alt).abs() < 1e-6);
}

#[test]
fn round_trip_reproduces_the_point() {
    for lat_deg in [-89.0, -60.0, -45.0, -10.0, 0.0, 0.001, 30.0, 51.5, 75.0, 89.0] {
        for lon_deg in [-179.0, -90.0, 0.0, 12.5, 90.0, 179.0] {
            for alt in [0.0, 0.4, 400.0, 20_200.0, 35_786.0] {
                let point = Geodetic::new(f64::to_radians(lat_deg), f64::to_radians(lon_deg), alt);
                let back = solve(&to_ecef(&point)).unwrap();
                assert!((back.lat - point.lat).abs() < 1e-9, "lat {lat_deg} {lon_deg} {alt}");
                assert!((back.lon - point.lon).abs() < 1e-9, "lon {lat_deg} {lon_deg} {alt}");
                assert!((back.alt - point.alt).abs() < 1e-6, "alt {lat_deg} {lon_deg} {alt}");
            }
        }
    }
}

#[test]
fn iteration_stops_at_the_first_settled_step() {
    let steps = Cell::new(0u32);
    let point = Geodetic::from_ecef(
        &Ecef::new(0i64, 0, 0),
        |_: &Ecef<i64>| 7i64,
        |_: &Ecef<i64>| 100i64,
        &|_: &Ecef<i64>, lat: &i64| {
            steps.set(steps.get() + 1);
            (lat / 2, *lat)
        },
        &|old: &i64, new: &i64| old - new < 5,
    )
    .unwrap();
    // 100 -> 50 -> 25 -> 12 -> 6 -> 3: the step from 6 to 3 is the first to move by less than 5
    assert_eq!(steps.get(), 5);
    assert_eq!((point.lat, point.lon, point.alt), (3, 7, 6));
}

#[test]
fn first_step_may_settle() {
    let point = Geodetic::from_ecef(
        &Ecef::new(1i64, 2, 3),
        |v: &Ecef<i64>| v.x,
        |v: &Ecef<i64>| v.y,
        &|v: &Ecef<i64>, lat: &i64| (*lat, v.z),
        &|old: &i64, new: &i64| old == new,
    )
    .unwrap();
    assert_eq!((point.lat, point.lon, point.alt), (2, 1, 3));
}

#[test]
fn iteration_is_cut_off() {
    let steps = Cell::new(0usize);
    let point = Geodetic::from_ecef(
        &Ecef::new(0.0, 0.0, 0.0),
        |_: &Ecef<f64>| 0.0f64,
        |_: &Ecef<f64>| 0.0f64,
        &|_: &Ecef<f64>, lat: &f64| {
            steps.set(steps.get() + 1);
            (lat + 1.0, 0.0f64)
        },
        &|_: &f64, _: &f64| false,
    );
    assert!(point.is_none());
    assert_eq!(steps.get(), MAX_LATITUDE_ITERATIONS);
    assert_eq!(MAX_LATITUDE_ITERATIONS, 50);
}

#[test]
fn settling_on_the_last_allowed_step_still_counts() {
    let steps = Cell::new(0usize);
    let point = Geodetic::from_ecef(
        &Ecef::new(0, 0, 0),
        |_: &Ecef<i32>| 0i32,
        |_: &Ecef<i32>| 0i32,
        &|_: &Ecef<i32>, lat: &i32| {
            steps.set(steps.get() + 1);
            (lat + 1, *lat)
        },
        &|_: &i32, new: &i32| *new == 50,
    )
    .unwrap();
    assert_eq!(steps.get(), 50);
    assert_eq!((point.lat, point.alt), (50, 49));
}

#[test]
fn known_point_on_the_equator() {
    let g = solve(&Ecef::new(A + 100.0, 0.0, 0.0)).unwrap();
    assert!(g.lat.abs() < 1e-15);
    assert_eq!(g.lon, 0.0);
    assert!((g.alt - 100.0).abs() < 1e-9);
}
