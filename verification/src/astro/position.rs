//! Selective computation of a satellite's position.
//!
//! The three frames depend on one another: the Earth-fixed vector is a
//! rotation of the inertial one, and the geodetic point is solved from the
//! Earth-fixed vector. Only what the selection needs is computed, each step
//! once, and only what the selection names is handed out.
use crate::astro::coords::ecef::Ecef;
use crate::astro::coords::eci::Eci;
use crate::astro::coords::geodetic::Geodetic;
use crate::astro::models::SatellitePosition;
use crate::astro::propagator::Propagator;
use crate::astro::time::UtcDateTime;
use crate::domain::errors::PropagationError;
use vstd::prelude::*;

verus! {

/// Which frames the caller wants.
#[derive(Clone, Copy, Debug, PartialEq, Eq, Structural)]
pub struct PositionComputation {
    pub eci: bool,
    pub ecef: bool,
    pub geodetic: bool,
}

impl Default for PositionComputation {
    fn default() -> (r: Self)
        ensures
            !r.eci && !r.ecef && !r.geodetic,
    {
        PositionComputation { eci: false, ecef: false, geodetic: false }
    }
}

impl PositionComputation {
    /// The inertial vector is needed as soon as any frame is selected.
    pub open spec fn spec_needs_eci(&self) -> bool {
        self.eci || self.ecef || self.geodetic
    }

    /// The Earth-fixed vector is needed for itself and for the geodetic point.
    pub open spec fn spec_needs_ecef(&self) -> bool {
        self.ecef || self.geodetic
    }

    /// The geodetic point is needed only for itself.
    pub open spec fn spec_needs_geodetic(&self) -> bool {
        self.geodetic
    }

    /// Whether the inertial vector has to be computed.
    #[verifier::when_used_as_spec(spec_needs_eci)]
    pub fn needs_eci(&self) -> (r: bool)
        ensures
            r == self.spec_needs_eci(),
    {
        self.eci || self.ecef || self.geodetic
    }

    /// Whether the Earth-fixed vector has to be computed.
    #[verifier::when_used_as_spec(spec_needs_ecef)]
    pub fn needs_ecef(&self) -> (r: bool)
        ensures
            r == self.spec_needs_ecef(),
    {
        self.ecef || self.geodetic
    }

    /// Whether the geodetic point has to be computed.
    #[verifier::when_used_as_spec(spec_needs_geodetic)]
    pub fn needs_geodetic(&self) -> (r: bool)
        ensures
            r == self.spec_needs_geodetic(),
    {
        self.geodetic
    }
}

/// A value is handed out exactly when its flag is set.
pub open spec fn exposed<T>(flag: bool, value: T) -> Option<T> {
    if flag {
        Some(value)
    } else {
        None
    }
}

/// What `compute_position` may return, given the three steps it is handed.
///
/// With nothing selected the result is the absent position. Otherwise a
/// failed propagation is passed on; after a successful one the result holds
/// the propagated vector, its rotation and the point solved from that
/// rotation, each under its own flag.
pub open spec fn position_outcome<A, L, E, P, R, S>(
    selection: PositionComputation,
    propagate: P,
    rotate: R,
    solve: S,
    outcome: Result<SatellitePosition<A, L>, E>,
) -> bool where
    P: FnOnce() -> Result<Eci<L>, E>,
    R: FnOnce(&Eci<L>) -> Ecef<L>,
    S: FnOnce(&Ecef<L>) -> Geodetic<A, L>,
 {
    if !selection.needs_eci() {
        outcome == Ok::<SatellitePosition<A, L>, E>(SatellitePosition::spec_absent())
    } else {
        match outcome {
            Err(e) => propagate.ensures((), Err(e)),
            Ok(position) => exists|eci: Eci<L>| #[trigger]
                propagate.ensures((), Ok(eci)) && position.eci == exposed(selection.eci, eci) && (
                if selection.needs_ecef() {
                    exists|ecef: Ecef<L>| #[trigger]
                        rotate.ensures((&eci,), ecef) && position.ecef == exposed(
                            selection.ecef,
                            ecef,
                        ) && (if selection.needs_geodetic() {
                            exists|geodetic: Geodetic<A, L>| #[trigger]
                                solve.ensures((&ecef,), geodetic) && position.geodetic == Some(
                                    geodetic,
                                )
                        } else {
                            position.geodetic is None
                        })
                } else {
                    position.ecef is None && position.geodetic is None
                }),
        }
    }
}

/// Computes the selected frames of a satellite's position.
///
/// `propagate` yields the inertial vector, `rotate` turns it into the
/// Earth-fixed frame and `solve` finds the geodetic point. A step may only
/// be called when the selection needs it, so an empty selection costs
/// nothing and cannot fail.
pub fn compute_position<A, L, E, P, R, S>(
    selection: &PositionComputation,
    propagate: P,
    rotate: R,
    solve: S,
) -> (r: Result<SatellitePosition<A, L>, E>) where
    P: FnOnce() -> Result<Eci<L>, E>,
    R: FnOnce(&Eci<L>) -> Ecef<L>,
    S: FnOnce(&Ecef<L>) -> Geodetic<A, L>,

    requires
        selection.needs_eci() ==> propagate.requires(()),
        selection.needs_ecef() ==> forall|eci: Eci<L>| #[trigger]
            propagate.ensures((), Ok(eci)) ==> rotate.requires((&eci,)),
        selection.needs_geodetic() ==> forall|eci: Eci<L>, ecef: Ecef<L>|
            propagate.ensures((), Ok(eci)) && #[trigger] rotate.ensures((&eci,), ecef)
                ==> solve.requires((&ecef,)),
    ensures
        position_outcome(*selection, propagate, rotate, solve, r),
{
    if !selection.needs_eci() {
        return Ok(SatellitePosition::absent());
    }
    let eci = match propagate() {
        Ok(eci) => eci,
        Err(e) => {
            return Err(e);
        },
    };
    if !selection.needs_ecef() {
        return Ok(SatellitePosition { eci: Some(eci), ecef: None, geodetic: None });
    }
    let ecef = rotate(&eci);
    let geodetic = if selection.needs_geodetic() {
        Some(solve(&ecef))
    } else {
        None
    };
    Ok(
        SatellitePosition {
            eci: if selection.eci {
                Some(eci)
            } else {
                None
            },
            ecef: if selection.ecef {
                Some(ecef)
            } else {
                None
            },
            geodetic,
        },
    )
}

/// What is needed follows the dependencies between the frames: the
/// geodetic point needs the Earth-fixed vector, and that needs the inertial
/// one.
pub proof fn lemma_needs_follow_dependencies(selection: PositionComputation)
    ensures
        selection.needs_geodetic() ==> selection.needs_ecef(),
        selection.needs_ecef() ==> selection.needs_eci(),
        selection.eci ==> selection.needs_eci(),
        selection.ecef ==> selection.needs_ecef(),
        selection.geodetic == selection.needs_geodetic(),
{
}

/// Every frame is present in a computed position exactly when it was
/// selected: what is computed on the way to another frame stays inside.
pub proof fn lemma_position_present_iff_selected<A, L, E, P, R, S>(
    selection: PositionComputation,
    propagate: P,
    rotate: R,
    solve: S,
    position: SatellitePosition<A, L>,
) where
    P: FnOnce() -> Result<Eci<L>, E>,
    R: FnOnce(&Eci<L>) -> Ecef<L>,
    S: FnOnce(&Ecef<L>) -> Geodetic<A, L>,

    requires
        position_outcome(
            selection,
            propagate,
            rotate,
            solve,
            Ok::<SatellitePosition<A, L>, E>(position),
        ),
    ensures
        position.eci is Some <==> selection.eci,
        position.ecef is Some <==> selection.ecef,
        position.geodetic is Some <==> selection.geodetic,
{
}

/// With nothing selected there is one outcome, the absent position,
/// whatever the steps would do: none of them is reached.
pub proof fn lemma_empty_position_selection<A, L, E, P, R, S>(
    propagate: P,
    rotate: R,
    solve: S,
    outcome: Result<SatellitePosition<A, L>, E>,
) where
    P: FnOnce() -> Result<Eci<L>, E>,
    R: FnOnce(&Eci<L>) -> Ecef<L>,
    S: FnOnce(&Ecef<L>) -> Geodetic<A, L>,

    ensures
        position_outcome(
            PositionComputation { eci: false, ecef: false, geodetic: false },
            propagate,
            rotate,
            solve,
            outcome,
        ) <==> outcome == Ok::<SatellitePosition<A, L>, E>(SatellitePosition::spec_absent()),
{
}

/// The frames of one position belong together: the Earth-fixed vector that
/// is handed out is the rotation of the inertial vector that is handed out,
/// and the geodetic point is solved from that same Earth-fixed vector.
pub proof fn lemma_position_frames_belong_together<A, L, E, P, R, S>(
    propagate: P,
    rotate: R,
    solve: S,
    position: SatellitePosition<A, L>,
) where
    P: FnOnce() -> Result<Eci<L>, E>,
    R: FnOnce(&Eci<L>) -> Ecef<L>,
    S: FnOnce(&Ecef<L>) -> Geodetic<A, L>,

    requires
        position_outcome(
            PositionComputation { eci: true, ecef: true, geodetic: true },
            propagate,
            rotate,
            solve,
            Ok::<SatellitePosition<A, L>, E>(position),
        ),
    ensures
        position.eci is Some && position.ecef is Some && position.geodetic is Some,
        propagate.ensures((), Ok(position.eci->0)),
        rotate.ensures((&position.eci->0,), position.ecef->0),
        solve.ensures((&position.ecef->0,), position.geodetic->0),
{
}

/// What `Propagator::position_at` may return: `position_outcome` with the
/// kernel's prediction for the instant, taken into the inertial frame by
/// `frame`, as the propagation step.
pub open spec fn position_at_outcome<A, L, C, R, S>(
    propagator: Propagator,
    datetime: UtcDateTime,
    compute: PositionComputation,
    frame: C,
    rotate: R,
    solve: S,
    outcome: Result<SatellitePosition<A, L>, PropagationError>,
) -> bool where
    C: FnOnce(sgp4::Prediction) -> Eci<L>,
    R: FnOnce(&Eci<L>) -> Ecef<L>,
    S: FnOnce(&Ecef<L>) -> Geodetic<A, L>,
 {
    if !compute.needs_eci() {
        outcome == Ok::<SatellitePosition<A, L>, PropagationError>(
            SatellitePosition::spec_absent(),
        )
    } else {
        match propagator.spec_eci_at(&datetime) {
            Err(e) => outcome == Err::<SatellitePosition<A, L>, PropagationError>(e),
            Ok(prediction) => outcome matches Ok(position) && exists|eci: Eci<L>| #[trigger]
                frame.ensures((prediction,), eci) && position.eci == exposed(compute.eci, eci) && (
                if compute.needs_ecef() {
                    exists|ecef: Ecef<L>| #[trigger]
                        rotate.ensures((&eci,), ecef) && position.ecef == exposed(
                            compute.ecef,
                            ecef,
                        ) && (if compute.needs_geodetic() {
                            exists|geodetic: Geodetic<A, L>| #[trigger]
                                solve.ensures((&ecef,), geodetic) && position.geodetic == Some(
                                    geodetic,
                                )
                        } else {
                            position.geodetic is None
                        })
                } else {
                    position.ecef is None && position.geodetic is None
                }),
        }
    }
}

impl Propagator {
    /// The selected frames of the satellite's position at `datetime`.
    ///
    /// `frame` takes the kernel's prediction into the inertial frame;
    /// `rotate` and `solve` are the steps of `compute_position`. The kernel
    /// runs once, and only if a frame is selected.
    pub fn position_at<A, L, C, R, S>(
        &self,
        datetime: &UtcDateTime,
        compute: &PositionComputation,
        frame: C,
        rotate: R,
        solve: S,
    ) -> (r: Result<SatellitePosition<A, L>, PropagationError>) where
        C: FnOnce(sgp4::Prediction) -> Eci<L>,
        R: FnOnce(&Eci<L>) -> Ecef<L>,
        S: FnOnce(&Ecef<L>) -> Geodetic<A, L>,

        requires
            compute.needs_eci() ==> forall|prediction: sgp4::Prediction| #[trigger]
                frame.requires((prediction,)),
            compute.needs_ecef() ==> forall|eci: Eci<L>| #[trigger] rotate.requires((&eci,)),
            compute.needs_geodetic() ==> forall|ecef: Ecef<L>| #[trigger]
                solve.requires((&ecef,)),
        ensures
            position_at_outcome(*self, *datetime, *compute, frame, rotate, solve, r),
    {
        let propagate = || -> (eci: Result<Eci<L>, PropagationError>)
            requires
                forall|prediction: sgp4::Prediction| #[trigger] frame.requires((prediction,)),
            ensures
                match self.spec_eci_at(datetime) {
                    Err(e) => eci == Err::<Eci<L>, PropagationError>(e),
                    Ok(prediction) => eci matches Ok(v) && frame.ensures((prediction,), v),
                },
            {
                match self.eci_at(datetime) {
                    Ok(prediction) => Ok(frame(prediction)),
                    Err(e) => Err(e),
                }
            };
        compute_position(compute, propagate, rotate, solve)
    }
}

} // verus!
