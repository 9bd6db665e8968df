//! Selective computation of topocentric look angles.
//!
//! The satellite's inertial vector is rotated into the Earth-fixed frame,
//! the observer's place is subtracted, and the difference is turned into the
//! observer's South-East-Zenith frame. Azimuth comes from that vector alone;
//! elevation needs the range as well, so the range is computed whenever
//! either of the two is selected.
use crate::astro::coords::ecef::Ecef;
use crate::astro::coords::eci::Eci;
use crate::astro::coords::geodetic::Geodetic;
use crate::astro::coords::sez::Sez;
use crate::astro::models::LookAngles;
use crate::astro::position::exposed;
use crate::astro::propagator::Propagator;
use crate::astro::time::UtcDateTime;
use crate::domain::errors::PropagationError;
use vstd::prelude::*;

verus! {

/// Which look angles the caller wants.
#[derive(Clone, Copy, Debug, PartialEq, Eq, Structural)]
pub struct LookAnglesComputation {
    pub azimuth: bool,
    pub elevation: bool,
    pub range: bool,
}

impl Default for LookAnglesComputation {
    fn default() -> (r: Self)
        ensures
            !r.azimuth && !r.elevation && !r.range,
    {
        LookAnglesComputation { azimuth: false, elevation: false, range: false }
    }
}

impl LookAnglesComputation {
    /// The satellite has to be propagated as soon as anything is selected.
    pub open spec fn spec_needs_propagation(&self) -> bool {
        self.azimuth || self.elevation || self.range
    }

    /// The range is needed for itself and for the elevation.
    pub open spec fn spec_needs_range(&self) -> bool {
        self.range || self.elevation
    }

    /// Whether the satellite has to be propagated.
    #[verifier::when_used_as_spec(spec_needs_propagation)]
    pub fn needs_propagation(&self) -> (r: bool)
        ensures
            r == self.spec_needs_propagation(),
    {
        self.azimuth || self.elevation || self.range
    }

    /// Whether the range has to be computed.
    #[verifier::when_used_as_spec(spec_needs_range)]
    pub fn needs_range(&self) -> (r: bool)
        ensures
            r == self.spec_needs_range(),
    {
        self.range || self.elevation
    }
}

/// What `topocentric` may return: the projection of the difference between
/// the rotated satellite vector and the observer's Earth-fixed place.
pub open spec fn topocentric_outcome<A, L, R, O, M, T>(
    eci: Eci<L>,
    observer: Geodetic<A, L>,
    rotate: R,
    locate: O,
    minus: M,
    project: T,
    outcome: Sez<L>,
) -> bool where
    R: FnOnce(&Eci<L>) -> Ecef<L>,
    O: FnOnce(&Geodetic<A, L>) -> Ecef<L>,
    M: Fn(L, L) -> L,
    T: FnOnce(&Ecef<L>, &Geodetic<A, L>) -> Sez<L>,
 {
    exists|satellite: Ecef<L>, place: Ecef<L>, rho: Ecef<L>|
        {
            &&& #[trigger] rotate.ensures((&eci,), satellite)
            &&& #[trigger] locate.ensures((&observer,), place)
            &&& minus.ensures((satellite.x, place.x), rho.x)
            &&& minus.ensures((satellite.y, place.y), rho.y)
            &&& minus.ensures((satellite.z, place.z), rho.z)
            &&& #[trigger] project.ensures((&rho, &observer), outcome)
        }
}

/// The satellite as seen from the observer, in the observer's
/// South-East-Zenith frame.
///
/// `rotate` turns the inertial vector into the Earth-fixed frame, `locate`
/// gives the observer's Earth-fixed place, `minus` subtracts two lengths and
/// `project` turns the range vector into the observer's frame.
pub fn topocentric<A, L, R, O, M, T>(
    eci: &Eci<L>,
    observer: &Geodetic<A, L>,
    rotate: R,
    locate: O,
    minus: &M,
    project: T,
) -> (r: Sez<L>) where
    R: FnOnce(&Eci<L>) -> Ecef<L>,
    O: FnOnce(&Geodetic<A, L>) -> Ecef<L>,
    M: Fn(L, L) -> L,
    T: FnOnce(&Ecef<L>, &Geodetic<A, L>) -> Sez<L>,

    requires
        rotate.requires((eci,)),
        locate.requires((observer,)),
        forall|a: L, b: L| #[trigger] minus.requires((a, b)),
        forall|rho: Ecef<L>| #[trigger] project.requires((&rho, observer)),
    ensures
        topocentric_outcome(*eci, *observer, rotate, locate, *minus, project, r),
{
    let satellite = rotate(eci);
    let place = locate(observer);
    let rho = satellite.sub(place, minus);
    project(&rho, observer)
}

/// What `nonzero_range` makes of a range: the least positive length where
/// the range is zero, the range itself otherwise.
pub open spec fn guarded<L, Z: FnOnce(&L) -> bool>(
    range: L,
    is_zero: Z,
    least: L,
    outcome: L,
) -> bool {
    exists|zero: bool| #[trigger]
        is_zero.ensures((&range,), zero) && outcome == (if zero {
            least
        } else {
            range
        })
}

/// Keeps a range from being zero, so that it can be divided by: where the
/// satellite and the observer coincide, the range gives way to `least`.
pub fn nonzero_range<L, Z: FnOnce(&L) -> bool>(range: L, is_zero: Z, least: L) -> (r: L)
    requires
        is_zero.requires((&range,)),
    ensures
        guarded(range, is_zero, least, r),
{
    if is_zero(&range) {
        least
    } else {
        range
    }
}

/// A guarded range is never zero, as long as the least length is not zero.
pub proof fn lemma_guarded_is_not_zero<L, Z: FnOnce(&L) -> bool>(
    range: L,
    is_zero: Z,
    least: L,
    outcome: L,
)
    requires
        guarded(range, is_zero, least, outcome),
        is_zero.ensures((&least,), false),
    ensures
        is_zero.ensures((&outcome,), false),
{
}

/// What `compute_look_angles` may return, given the steps it is handed.
///
/// With nothing selected the result is the absent one. Otherwise a failed
/// propagation is passed on; after a successful one the azimuth and the
/// range are those of the projected vector, the elevation is that of the
/// vector and this same range, and each stands in the result under its own
/// flag.
pub open spec fn look_angles_outcome<A, L, E, P, T, R, Z, V>(
    selection: LookAnglesComputation,
    propagate: P,
    project: T,
    range_of: R,
    azimuth_of: Z,
    elevation_of: V,
    outcome: Result<LookAngles<A, L>, E>,
) -> bool where
    P: FnOnce() -> Result<Eci<L>, E>,
    T: FnOnce(&Eci<L>) -> Sez<L>,
    R: FnOnce(&Sez<L>) -> L,
    Z: FnOnce(&Sez<L>) -> A,
    V: FnOnce(&Sez<L>, &L) -> A,
 {
    if !selection.needs_propagation() {
        outcome == Ok::<LookAngles<A, L>, E>(LookAngles::spec_absent())
    } else {
        match outcome {
            Err(e) => propagate.ensures((), Err(e)),
            Ok(angles) => exists|eci: Eci<L>, sez: Sez<L>|
                {
                    &&& #[trigger] propagate.ensures((), Ok(eci))
                    &&& #[trigger] project.ensures((&eci,), sez)
                    &&& if selection.azimuth {
                        exists|azimuth: A| #[trigger]
                            azimuth_of.ensures((&sez,), azimuth) && angles.azimuth == Some(azimuth)
                    } else {
                        angles.azimuth is None
                    }
                    &&& if selection.needs_range() {
                        exists|range: L| #[trigger]
                            range_of.ensures((&sez,), range) && angles.range == exposed(
                                selection.range,
                                range,
                            ) && (if selection.elevation {
                                exists|elevation: A| #[trigger]
                                    elevation_of.ensures((&sez, &range), elevation)
                                        && angles.elevation == Some(elevation)
                            } else {
                                angles.elevation is None
                            })
                    } else {
                        angles.range is None && angles.elevation is None
                    }
                },
        }
    }
}

/// Computes the selected look angles.
///
/// `propagate` yields the satellite's inertial vector and `project` turns it
/// into the observer's South-East-Zenith frame; `range_of`, `azimuth_of` and
/// `elevation_of` read the three quantities off that vector. A step may only
/// be called when the selection needs it, so an empty selection costs
/// nothing and cannot fail.
pub fn compute_look_angles<A, L, E, P, T, R, Z, V>(
    selection: &LookAnglesComputation,
    propagate: P,
    project: T,
    range_of: R,
    azimuth_of: Z,
    elevation_of: V,
) -> (r: Result<LookAngles<A, L>, E>) where
    P: FnOnce() -> Result<Eci<L>, E>,
    T: FnOnce(&Eci<L>) -> Sez<L>,
    R: FnOnce(&Sez<L>) -> L,
    Z: FnOnce(&Sez<L>) -> A,
    V: FnOnce(&Sez<L>, &L) -> A,

    requires
        selection.needs_propagation() ==> propagate.requires(()),
        selection.needs_propagation() ==> forall|eci: Eci<L>| #[trigger]
            propagate.ensures((), Ok(eci)) ==> project.requires((&eci,)),
        selection.azimuth ==> forall|sez: Sez<L>| #[trigger] azimuth_of.requires((&sez,)),
        selection.needs_range() ==> forall|sez: Sez<L>| #[trigger] range_of.requires((&sez,)),
        selection.elevation ==> forall|sez: Sez<L>, range: L|
            range_of.ensures((&sez,), range) ==> #[trigger] elevation_of.requires((&sez, &range)),
    ensures
        look_angles_outcome(
            *selection,
            propagate,
            project,
            range_of,
            azimuth_of,
            elevation_of,
            r,
        ),
{
    if !selection.needs_propagation() {
        return Ok(LookAngles::absent());
    }
    let eci = match propagate() {
        Ok(eci) => eci,
        Err(e) => {
            return Err(e);
        },
    };
    let sez = project(&eci);
    let azimuth = if selection.azimuth {
        Some(azimuth_of(&sez))
    } else {
        None
    };
    if !selection.needs_range() {
        return Ok(LookAngles { azimuth, elevation: None, range: None });
    }
    let range = range_of(&sez);
    let elevation = if selection.elevation {
        Some(elevation_of(&sez, &range))
    } else {
        None
    };
    Ok(
        LookAngles {
            azimuth,
            elevation,
            range: if selection.range {
                Some(range)
            } else {
                None
            },
        },
    )
}

/// Every look angle is present in a computed result exactly when it was
/// selected: a range computed for the elevation's sake stays inside.
pub proof fn lemma_look_angles_present_iff_selected<A, L, E, P, T, R, Z, V>(
    selection: LookAnglesComputation,
    propagate: P,
    project: T,
    range_of: R,
    azimuth_of: Z,
    elevation_of: V,
    angles: LookAngles<A, L>,
) where
    P: FnOnce() -> Result<Eci<L>, E>,
    T: FnOnce(&Eci<L>) -> Sez<L>,
    R: FnOnce(&Sez<L>) -> L,
    Z: FnOnce(&Sez<L>) -> A,
    V: FnOnce(&Sez<L>, &L) -> A,

    requires
        look_angles_outcome(
            selection,
            propagate,
            project,
            range_of,
            azimuth_of,
            elevation_of,
            Ok::<LookAngles<A, L>, E>(angles),
        ),
    ensures
        angles.azimuth is Some <==> selection.azimuth,
        angles.elevation is Some <==> selection.elevation,
        angles.range is Some <==> selection.range,
{
}

/// With nothing selected there is one outcome, the absent look angles,
/// whatever the steps would do: none of them is reached.
pub proof fn lemma_empty_look_angles_selection<A, L, E, P, T, R, Z, V>(
    propagate: P,
    project: T,
    range_of: R,
    azimuth_of: Z,
    elevation_of: V,
    outcome: Result<LookAngles<A, L>, E>,
) where
    P: FnOnce() -> Result<Eci<L>, E>,
    T: FnOnce(&Eci<L>) -> Sez<L>,
    R: FnOnce(&Sez<L>) -> L,
    Z: FnOnce(&Sez<L>) -> A,
    V: FnOnce(&Sez<L>, &L) -> A,

    ensures
        look_angles_outcome(
            LookAnglesComputation { azimuth: false, elevation: false, range: false },
            propagate,
            project,
            range_of,
            azimuth_of,
            elevation_of,
            outcome,
        ) <==> outcome == Ok::<LookAngles<A, L>, E>(LookAngles::spec_absent()),
{
}

/// The elevation is taken at the range of the same vector: where both are
/// handed out, the range in the result is the one that the elevation was
/// computed with.
pub proof fn lemma_elevation_uses_the_exposed_range<A, L, E, P, T, R, Z, V>(
    selection: LookAnglesComputation,
    propagate: P,
    project: T,
    range_of: R,
    azimuth_of: Z,
    elevation_of: V,
    angles: LookAngles<A, L>,
) where
    P: FnOnce() -> Result<Eci<L>, E>,
    T: FnOnce(&Eci<L>) -> Sez<L>,
    R: FnOnce(&Sez<L>) -> L,
    Z: FnOnce(&Sez<L>) -> A,
    V: FnOnce(&Sez<L>, &L) -> A,

    requires
        selection.elevation && selection.range,
        look_angles_outcome(
            selection,
            propagate,
            project,
            range_of,
            azimuth_of,
            elevation_of,
            Ok::<LookAngles<A, L>, E>(angles),
        ),
    ensures
        angles.range is Some && angles.elevation is Some,
        exists|sez: Sez<L>|
            #[trigger] range_of.ensures((&sez,), angles.range->0) && elevation_of.ensures(
                (&sez, &angles.range->0),
                angles.elevation->0,
            ),
{
    let (eci, sez) = choose|eci: Eci<L>, sez: Sez<L>|
        {
            &&& #[trigger] propagate.ensures((), Ok(eci))
            &&& #[trigger] project.ensures((&eci,), sez)
            &&& exists|range: L| #[trigger]
                range_of.ensures((&sez,), range) && angles.range == exposed(
                    selection.range,
                    range,
                ) && (exists|elevation: A| #[trigger]
                    elevation_of.ensures((&sez, &range), elevation) && angles.elevation == Some(
                        elevation,
                    ))
        };
    assert(range_of.ensures((&sez,), angles.range->0));
}

/// What `Propagator::look_angles_at` may return: `look_angles_outcome` with
/// the kernel's prediction for the instant, taken into the inertial frame by
/// `frame`, as the propagation step, and the projection into the frame of
/// `observer`.
pub open spec fn look_angles_at_outcome<A, L, C, T, R, Z, V>(
    propagator: Propagator,
    datetime: UtcDateTime,
    observer: Geodetic<A, L>,
    compute: LookAnglesComputation,
    frame: C,
    project: T,
    range_of: R,
    azimuth_of: Z,
    elevation_of: V,
    outcome: Result<LookAngles<A, L>, PropagationError>,
) -> bool where
    C: FnOnce(sgp4::Prediction) -> Eci<L>,
    T: FnOnce(&Eci<L>, &Geodetic<A, L>) -> Sez<L>,
    R: FnOnce(&Sez<L>) -> L,
    Z: FnOnce(&Sez<L>) -> A,
    V: FnOnce(&Sez<L>, &L) -> A,
 {
    if !compute.needs_propagation() {
        outcome == Ok::<LookAngles<A, L>, PropagationError>(LookAngles::spec_absent())
    } else {
        match propagator.spec_eci_at(&datetime) {
            Err(e) => outcome == Err::<LookAngles<A, L>, PropagationError>(e),
            Ok(prediction) => outcome matches Ok(angles) && exists|eci: Eci<L>, sez: Sez<L>|
                {
                    &&& #[trigger] frame.ensures((prediction,), eci)
                    &&& #[trigger] project.ensures((&eci, &observer), sez)
                    &&& if compute.azimuth {
                        exists|azimuth: A| #[trigger]
                            azimuth_of.ensures((&sez,), azimuth) && angles.azimuth == Some(azimuth)
                    } else {
                        angles.azimuth is None
                    }
                    &&& if compute.needs_range() {
                        exists|range: L| #[trigger]
                            range_of.ensures((&sez,), range) && angles.range == exposed(
                                compute.range,
                                range,
                            ) && (if compute.elevation {
                                exists|elevation: A| #[trigger]
                                    elevation_of.ensures((&sez, &range), elevation)
                                        && angles.elevation == Some(elevation)
                            } else {
                                angles.elevation is None
                            })
                    } else {
                        angles.range is None && angles.elevation is None
                    }
                },
        }
    }
}

impl Propagator {
    /// The selected look angles of the satellite at `datetime`, as seen by
    /// `observer`.
    ///
    /// `frame` takes the kernel's prediction into the inertial frame and
    /// `project` takes that vector into the observer's frame; the other
    /// steps are those of `compute_look_angles`. The kernel runs once, and
    /// only if a quantity is selected.
    pub fn look_angles_at<A, L, C, T, R, Z, V>(
        &self,
        datetime: &UtcDateTime,
        observer: &Geodetic<A, L>,
        compute: &LookAnglesComputation,
        frame: C,
        project: T,
        range_of: R,
        azimuth_of: Z,
        elevation_of: V,
    ) -> (r: Result<LookAngles<A, L>, PropagationError>) where
        C: FnOnce(sgp4::Prediction) -> Eci<L>,
        T: FnOnce(&Eci<L>, &Geodetic<A, L>) -> Sez<L>,
        R: FnOnce(&Sez<L>) -> L,
        Z: FnOnce(&Sez<L>) -> A,
        V: FnOnce(&Sez<L>, &L) -> A,

        requires
            compute.needs_propagation() ==> forall|prediction: sgp4::Prediction| #[trigger]
                frame.requires((prediction,)),
            compute.needs_propagation() ==> forall|eci: Eci<L>| #[trigger]
                project.requires((&eci, observer)),
            compute.azimuth ==> forall|sez: Sez<L>| #[trigger] azimuth_of.requires((&sez,)),
            compute.needs_range() ==> forall|sez: Sez<L>| #[trigger] range_of.requires((&sez,)),
            compute.elevation ==> forall|sez: Sez<L>, range: L|
                range_of.ensures((&sez,), range) ==> #[trigger] elevation_of.requires(
                    (&sez, &range),
                ),
        ensures
            look_angles_at_outcome(
                *self,
                *datetime,
                *observer,
                *compute,
                frame,
                project,
                range_of,
                azimuth_of,
                elevation_of,
                r,
            ),
    {
        let propagate = || -> (eci: Result<Eci<L>, PropagationError>)
            requires
                forall|prediction: sgp4::Prediction| #[trigger] frame.requires((prediction,)),
            ensures
                match self.spec_eci_at(datetime) {
                    Err(e) => eci == Err::<Eci<L>, PropagationError>(e),
                    Ok(prediction) => eci matches Ok(v) && frame.ensures((prediction,), v),
                },
            {
                match self.eci_at(datetime) {
                    Ok(prediction) => Ok(frame(prediction)),
                    Err(e) => Err(e),
                }
            };
        let seen = |eci: &Eci<L>| -> (sez: Sez<L>)
            requires
                project.requires((eci, observer)),
            ensures
                project.ensures((eci, observer), sez),
            { project(eci, observer) };
        compute_look_angles(compute, propagate, seen, range_of, azimuth_of, elevation_of)
    }
}

} // verus!
