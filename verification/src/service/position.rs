//! The position of a satellite, with the record of the computation.
use crate::astro::coords::ecef::Ecef;
use crate::astro::coords::eci::Eci;
use crate::astro::coords::geodetic::Geodetic;
use crate::astro::models::{SatellitePosition, Tle};
use crate::astro::position::{position_at_outcome, PositionComputation};
use crate::astro::propagator::Propagator;
use crate::astro::time::UtcDateTime;
use crate::domain::errors::PropagationError;
use crate::domain::models::{propagation_model_name, ComputationMetadata};
use vstd::prelude::*;

verus! {

/// The record of a computation at `datetime` on the element set `tle`.
pub open spec fn describes(metadata: ComputationMetadata, tle: Tle, datetime: UtcDateTime) -> bool {
    &&& metadata.propagation_model@ == propagation_model_name()
    &&& metadata.computation_time == datetime
    &&& metadata.norad_id == tle.norad_id
    &&& metadata.satellite_name == tle.satellite_name
    &&& metadata.tle_epoch == tle.epoch
}

/// What `get_position_with_metadata` may return: the refusal of an element
/// set that cannot be propagated, or what `Propagator::position_at` makes of
/// it, with the record of the computation beside a position.
pub open spec fn position_with_metadata_outcome<A, L, C, R, S>(
    tle: Tle,
    datetime: UtcDateTime,
    compute: PositionComputation,
    frame: C,
    rotate: R,
    solve: S,
    outcome: Result<(SatellitePosition<A, L>, ComputationMetadata), PropagationError>,
) -> bool where
    C: FnOnce(sgp4::Prediction) -> Eci<L>,
    R: FnOnce(&Eci<L>) -> Ecef<L>,
    S: FnOnce(&Ecef<L>) -> Geodetic<A, L>,
 {
    match Propagator::spec_from_tle(&tle) {
        Err(e) => outcome == Err::<(SatellitePosition<A, L>, ComputationMetadata), PropagationError>(
            e,
        ),
        Ok(propagator) => match outcome {
            Err(e) => position_at_outcome(
                propagator,
                datetime,
                compute,
                frame,
                rotate,
                solve,
                Err::<SatellitePosition<A, L>, PropagationError>(e),
            ),
            Ok((position, metadata)) => position_at_outcome(
                propagator,
                datetime,
                compute,
                frame,
                rotate,
                solve,
                Ok::<SatellitePosition<A, L>, PropagationError>(position),
            ) && describes(metadata, tle, datetime),
        },
    }
}

/// The selected frames of the position, at `datetime`, of the satellite
/// whose element set is `tle`, and the record of the computation.
pub fn get_position_with_metadata<A, L, C, R, S>(
    tle: Tle,
    datetime: UtcDateTime,
    compute: &PositionComputation,
    frame: C,
    rotate: R,
    solve: S,
) -> (r: Result<(SatellitePosition<A, L>, ComputationMetadata), PropagationError>) where
    C: FnOnce(sgp4::Prediction) -> Eci<L>,
    R: FnOnce(&Eci<L>) -> Ecef<L>,
    S: FnOnce(&Ecef<L>) -> Geodetic<A, L>,

    requires
        compute.needs_eci() ==> forall|prediction: sgp4::Prediction| #[trigger]
            frame.requires((prediction,)),
        compute.needs_ecef() ==> forall|eci: Eci<L>| #[trigger] rotate.requires((&eci,)),
        compute.needs_geodetic() ==> forall|ecef: Ecef<L>| #[trigger] solve.requires((&ecef,)),
    ensures
        position_with_metadata_outcome(tle, datetime, *compute, frame, rotate, solve, r),
{
    let propagator = match Propagator::from_tle(&tle) {
        Ok(propagator) => propagator,
        Err(e) => {
            return Err(e);
        },
    };
    let position = match propagator.position_at(&datetime, compute, frame, rotate, solve) {
        Ok(position) => position,
        Err(e) => {
            return Err(e);
        },
    };
    Ok((position, ComputationMetadata::new(tle, datetime)))
}

} // verus!
