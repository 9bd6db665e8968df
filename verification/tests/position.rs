use std::cell::Cell;
use trajectory_service::astro::coords::ecef::Ecef;
use trajectory_service::astro::coords::eci::Eci;
use trajectory_service::astro::coords::geodetic::Geodetic;
use trajectory_service::astro::models::SatellitePosition;
use trajectory_service::astro::position::{compute_position, PositionComputation};

struct Counts {
    propagate: Cell<u32>,
    rotate: Cell<u32>,
    solve: Cell<u32>,
}

fn run(
    selection: PositionComputation,
    counts: &Counts,
    fail: bool,
) -> Result<SatellitePosition<f64, f64>, String> {
    compute_position(
        &selection,
        || {
            counts.propagate.set(counts.propagate.get() + 1);
            if fail {
                Err("diverged".to_string())
            } else {
                Ok(Eci::new(1.0, 2.0, 3.0))
            }
        },
        |eci: &Eci<f64>| {
            counts.rotate.set(counts.rotate.get() + 1);
            Ecef::new(eci.x + 10.0, eci.y + 10.0, eci.z)
        },
        |ecef: &Ecef<f64>| {
            counts.solve.set(counts.solve.get() + 1);
            Geodetic::new(ecef.x + 100.0, ecef.y + 100.0, ecef.z + 100.0)
        },
    )
}

fn counts() -> Counts {
    Counts { propagate: Cell::new(0), rotate: Cell::new(0), solve: Cell::new(0) }
}

fn select(eci: bool, ecef: bool, geodetic: bool) -> PositionComputation {
    PositionComputation { eci, ecef, geodetic }
}

#[test]
fn empty_selection_skips_propagation() {
    let c = counts();
    let result = run(select(false, false, false), &c, false).unwrap();
    assert_eq!((c.propagate.get(), c.rotate.get(), c.solve.get()), (0, 0, 0));
    assert!(result.eci.is_none() && result.ecef.is_none() && result.geodetic.is_none());
}

#[test]
fn empty_selection_cannot_fail() {
    let c = counts();
    assert!(run(select(false, false, false), &c, true).is_ok());
    assert_eq!(c.propagate.get(), 0);
}

#[test]
fn only_geodetic_hides_intermediate_frames() {
    let c = counts();
    let result = run(select(false, false, true), &c, false).unwrap();
    assert_eq!((c.propagate.get(), c.rotate.get(), c.solve.get()), (1, 1, 1));
    assert!(result.eci.is_none());
    assert!(result.ecef.is_none());
    let g = result.geodetic.unwrap();
    assert_eq!((g.lat, g.lon, g.alt), (111.0, 112.0, 103.0));
}

#[test]
fn only_eci_computes_nothing_else() {
    let c = counts();
    let result = run(select(true, false, false), &c, false).unwrap();
    assert_eq!((c.propagate.get(), c.rotate.get(), c.solve.get()), (1, 0, 0));
    let eci = result.eci.unwrap();
    assert_eq!((eci.x, eci.y, eci.z), (1.0, 2.0, 3.0));
    assert!(result.ecef.is_none() && result.geodetic.is_none());
}

#[test]
fn only_ecef_skips_the_geodetic_solution() {
    let c = counts();
    let result = run(select(false, true, false), &c, false).unwrap();
    assert_eq!((c.propagate.get(), c.rotate.get(), c.solve.get()), (1, 1, 0));
    let ecef = result.ecef.unwrap();
    assert_eq!((ecef.x, ecef.y, ecef.z), (11.0, 12.0, 3.0));
    assert!(result.eci.is_none() && result.geodetic.is_none());
}

#[test]
fn every_selection_exposes_exactly_what_it_names() {
    for bits in 0..8u8 {
        let selection = select(bits & 1 != 0, bits & 2 != 0, bits & 4 != 0);
        let c = counts();
        let result = run(selection, &c, false).unwrap();
        assert_eq!(result.eci.is_some(), selection.eci);
        assert_eq!(result.ecef.is_some(), selection.ecef);
        assert_eq!(result.geodetic.is_some(), selection.geodetic);
        assert_eq!(c.propagate.get(), u32::from(bits != 0));
        assert_eq!(c.rotate.get(), u32::from(selection.ecef || selection.geodetic));
        assert_eq!(c.solve.get(), u32::from(selection.geodetic));
        assert_eq!(selection.needs_eci(), bits != 0);
        assert_eq!(selection.needs_ecef(), selection.ecef || selection.geodetic);
        assert_eq!(selection.needs_geodetic(), selection.geodetic);
    }
}

#[test]
fn failed_propagation_is_passed_on() {
    for bits in 1..8u8 {
        let c = counts();
        let result = run(select(bits & 1 != 0, bits & 2 != 0, bits & 4 != 0), &c, true);
        assert_eq!(result.err(), Some("diverged".to_string()));
        assert_eq!((c.propagate.get(), c.rotate.get(), c.solve.get()), (1, 0, 0));
    }
}

#[test]
fn default_selection_is_empty() {
    let selection = PositionComputation::default();
    assert!(!selection.eci && !selection.ecef && !selection.geodetic);
}

#[test]
fn rotation_keeps_the_polar_component() {
    let ecef = Eci::new(3.0, 4.0, 5.0).to_ecef(|x: &f64, y: &f64| (-*y, *x));
    assert_eq!((ecef.x, ecef.y, ecef.z), (-4.0, 3.0, 5.0));
}

#[test]
fn difference_is_taken_by_component() {
    let d = Ecef::new(10.0, 20.0, 30.0).sub(Ecef::new(1.0, 2.0, 3.0), &|a: f64, b: f64| a - b);
    assert_eq!((d.x, d.y, d.z), (9.0, 18.0, 27.0));
}
