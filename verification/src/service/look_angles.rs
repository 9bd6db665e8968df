//! The look angles of a satellite, with the record of the computation.
use crate::astro::coords::eci::Eci;
use crate::astro::coords::geodetic::Geodetic;
use crate::astro::coords::sez::Sez;
use crate::astro::look_angles::{look_angles_at_outcome, LookAnglesComputation};
use crate::astro::models::{LookAngles, Tle};
use crate::astro::propagator::Propagator;
use crate::astro::time::UtcDateTime;
use crate::domain::errors::PropagationError;
use crate::domain::models::ComputationMetadata;
use crate::service::position::describes;
use vstd::prelude::*;

verus! {

/// What `get_look_angles_with_metadata` may return: the refusal of an
/// element set that cannot be propagated, or what
/// `Propagator::look_angles_at` makes of it, with the record of the
/// computation beside the look angles.
pub open spec fn look_angles_with_metadata_outcome<A, L, C, T, R, Z, V>(
    tle: Tle,
    datetime: UtcDateTime,
    observer: Geodetic<A, L>,
    compute: LookAnglesComputation,
    frame: C,
    project: T,
    range_of: R,
    azimuth_of: Z,
    elevation_of: V,
    outcome: Result<(LookAngles<A, L>, ComputationMetadata), PropagationError>,
) -> bool where
    C: FnOnce(sgp4::Prediction) -> Eci<L>,
    T: FnOnce(&Eci<L>, &Geodetic<A, L>) -> Sez<L>,
    R: FnOnce(&Sez<L>) -> L,
    Z: FnOnce(&Sez<L>) -> A,
    V: FnOnce(&Sez<L>, &L) -> A,
 {
    match Propagator::spec_from_tle(&tle) {
        Err(e) => outcome == Err::<(LookAngles<A, L>, ComputationMetadata), PropagationError>(e),
        Ok(propagator) => match outcome {
            Err(e) => look_angles_at_outcome(
                propagator,
                datetime,
                observer,
                compute,
                frame,
                project,
                range_of,
                azimuth_of,
                elevation_of,
                Err::<LookAngles<A, L>, PropagationError>(e),
            ),
            Ok((angles, metadata)) => look_angles_at_outcome(
                propagator,
                datetime,
                observer,
                compute,
                frame,
                project,
                range_of,
                azimuth_of,
                elevation_of,
                Ok::<LookAngles<A, L>, PropagationError>(angles),
            ) && describes(metadata, tle, datetime),
        },
    }
}

/// The selected look angles, at `datetime` and from `observer`, of the
/// satellite whose element set is `tle`, and the record of the computation.
pub fn get_look_angles_with_metadata<A, L, C, T, R, Z, V>(
    tle: Tle,
    datetime: UtcDateTime,
    observer: &Geodetic<A, L>,
    compute: &LookAnglesComputation,
    frame: C,
    project: T,
    range_of: R,
    azimuth_of: Z,
    elevation_of: V,
) -> (r: Result<(LookAngles<A, L>, ComputationMetadata), PropagationError>) where
    C: FnOnce(sgp4::Prediction) -> Eci<L>,
    T: FnOnce(&Eci<L>, &Geodetic<A, L>) -> Sez<L>,
    R: FnOnce(&Sez<L>) -> L,
    Z: FnOnce(&Sez<L>) -> A,
    V: FnOnce(&Sez<L>, &L) -> A,

    requires
        compute.needs_propagation() ==> forall|prediction: sgp4::Prediction| #[trigger]
            frame.requires((prediction,)),
        compute.needs_propagation() ==> forall|eci: Eci<L>| #[trigger]
            project.requires((&eci, observer)),
        compute.azimuth ==> forall|sez: Sez<L>| #[trigger] azimuth_of.requires((&sez,)),
        compute.needs_range() ==> forall|sez: Sez<L>| #[trigger] range_of.requires((&sez,)),
        compute.elevation ==> forall|sez: Sez<L>, range: L|
            range_of.ensures((&sez,), range) ==> #[trigger] elevation_of.requires((&sez, &range)),
    ensures
        look_angles_with_metadata_outcome(
            tle,
            datetime,
            *observer,
            *compute,
            frame,
            project,
            range_of,
            azimuth_of,
            elevation_of,
            r,
        ),
{
    let propagator = match Propagator::from_tle(&tle) {
        Ok(propagator) => propagator,
        Err(e) => {
            return Err(e);
        },
    };
    let angles = match propagator.look_angles_at(
        &datetime,
        observer,
        compute,
        frame,
        project,
        range_of,
        azimuth_of,
        elevation_of,
    ) {
        Ok(angles) => angles,
        Err(e) => {
            return Err(e);
        },
    };
    Ok((angles, ComputationMetadata::new(tle, datetime)))
}

} // verus!
