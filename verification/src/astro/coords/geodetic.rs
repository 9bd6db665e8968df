//! Geodetic coordinates, and the bounded iteration that solves them from an
//! Earth-fixed vector.
use crate::astro::coords::ecef::Ecef;
use vstd::prelude::*;

verus! {

/// Most refinement steps the latitude iteration may take. It settles within
/// a handful of steps on any physical input; running out of steps means the
/// input was malformed.
pub const MAX_LATITUDE_ITERATIONS: usize = 50;

/// Latitude, longitude and altitude over a reference ellipsoid, over any
/// angle type `A` and length type `L`.
#[derive(Clone, Copy, Debug)]
pub struct Geodetic<A, L> {
    pub lat: A,
    pub lon: A,
    pub alt: L,
}

/// The record of a latitude iteration: `latitudes[0]` is the first estimate,
/// step `i` refines `latitudes[i]` into `latitudes[i + 1]` and yields the
/// altitude `altitudes[i]`, and no step but possibly the last has settled.
pub open spec fn latitude_trace<A, L, F, C>(
    ecef: Ecef<L>,
    refine: F,
    settled: C,
    latitudes: Seq<A>,
    altitudes: Seq<L>,
) -> bool where F: Fn(&Ecef<L>, &A) -> (A, L), C: Fn(&A, &A) -> bool {
    &&& latitudes.len() == altitudes.len() + 1
    &&& forall|i: int|
        0 <= i < altitudes.len() ==> #[trigger] refine.ensures(
            (&ecef, &latitudes[i]),
            (latitudes[i + 1], altitudes[i]),
        )
    &&& forall|i: int|
        0 <= i < altitudes.len() - 1 ==> #[trigger] settled.ensures(
            (&latitudes[i], &latitudes[i + 1]),
            false,
        )
}

/// What `Geodetic::from_ecef` may return.
///
/// A point is the outcome of an iteration of one to `MAX_LATITUDE_ITERATIONS`
/// steps whose last step, and no earlier one, has settled: its latitude is
/// the last estimate, its altitude the one that the last step yielded.
/// Nothing is returned when `MAX_LATITUDE_ITERATIONS` steps went by and none
/// settled.
pub open spec fn from_ecef_outcome<A, L, G, S, F, C>(
    ecef: Ecef<L>,
    longitude_of: G,
    start: S,
    refine: F,
    settled: C,
    outcome: Option<Geodetic<A, L>>,
) -> bool where
    G: FnOnce(&Ecef<L>) -> A,
    S: FnOnce(&Ecef<L>) -> A,
    F: Fn(&Ecef<L>, &A) -> (A, L),
    C: Fn(&A, &A) -> bool,
 {
    exists|latitudes: Seq<A>, altitudes: Seq<L>|
        {
            let steps = altitudes.len() as int;
            &&& #[trigger] latitude_trace(ecef, refine, settled, latitudes, altitudes)
            &&& start.ensures((&ecef,), latitudes[0])
            &&& 1 <= steps <= MAX_LATITUDE_ITERATIONS
            &&& match outcome {
                Some(point) => {
                    &&& longitude_of.ensures((&ecef,), point.lon)
                    &&& settled.ensures((&latitudes[steps - 1], &latitudes[steps]), true)
                    &&& point.lat == latitudes[steps]
                    &&& point.alt == altitudes[steps - 1]
                },
                None => {
                    &&& steps == MAX_LATITUDE_ITERATIONS
                    &&& settled.ensures((&latitudes[steps - 1], &latitudes[steps]), false)
                },
            }
        }
}

impl<A, L> Geodetic<A, L> {
    /// A geodetic point from latitude, longitude and altitude.
    pub fn new(lat: A, lon: A, alt: L) -> (r: Self)
        ensures
            r.lat == lat,
            r.lon == lon,
            r.alt == alt,
    {
        Geodetic { lat, lon, alt }
    }

    /// Solves the geodetic point of an Earth-fixed vector.
    ///
    /// The longitude has a closed form, `longitude_of`. The latitude has
    /// none: from the estimate `start`, `refine` yields the next estimate
    /// together with the altitude that belongs to the estimate it was given,
    /// until `settled` accepts two successive estimates. The iteration is
    /// cut off after `MAX_LATITUDE_ITERATIONS` steps.
    pub fn from_ecef<G, S, F, C>(
        ecef: &Ecef<L>,
        longitude_of: G,
        start: S,
        refine: &F,
        settled: &C,
    ) -> (r: Option<Self>) where
        G: FnOnce(&Ecef<L>) -> A,
        S: FnOnce(&Ecef<L>) -> A,
        F: Fn(&Ecef<L>, &A) -> (A, L),
        C: Fn(&A, &A) -> bool,

        requires
            longitude_of.requires((ecef,)),
            start.requires((ecef,)),
            forall|lat: A| #[trigger] refine.requires((ecef, &lat)),
            forall|a: A, b: A| #[trigger] settled.requires((&a, &b)),
        ensures
            from_ecef_outcome(*ecef, longitude_of, start, *refine, *settled, r),
    {
        let lon = longitude_of(ecef);
        let mut lat = start(ecef);
        let ghost mut latitudes: Seq<A> = seq![lat];
        let ghost mut altitudes: Seq<L> = Seq::empty();
        let mut steps: usize = 0;
        loop
            invariant
                steps < MAX_LATITUDE_ITERATIONS,
                steps == 0 || settled.ensures(
                    (&latitudes[steps as int - 1], &latitudes[steps as int]),
                    false,
                ),
                altitudes.len() == steps,
                latitudes.len() == steps + 1,
                latitudes[steps as int] == lat,
                start.ensures((ecef,), latitudes[0]),
                longitude_of.ensures((ecef,), lon),
                latitude_trace(*ecef, *refine, *settled, latitudes, altitudes),
                forall|lat: A| #[trigger] refine.requires((ecef, &lat)),
                forall|a: A, b: A| #[trigger] settled.requires((&a, &b)),
            decreases MAX_LATITUDE_ITERATIONS - steps,
        {
            let (next, alt) = refine(ecef, &lat);
            let done = settled(&lat, &next);
            proof {
                let ghost before_latitudes = latitudes;
                let ghost before_altitudes = altitudes;
                latitudes = latitudes.push(next);
                altitudes = altitudes.push(alt);
                assert forall|i: int| 0 <= i < altitudes.len() implies #[trigger] refine.ensures(
                    (ecef, &latitudes[i]),
                    (latitudes[i + 1], altitudes[i]),
                ) by {
                    if i < steps {
                        assert(refine.ensures(
                            (ecef, &before_latitudes[i]),
                            (before_latitudes[i + 1], before_altitudes[i]),
                        ));
                    }
                }
                assert forall|i: int|
                    0 <= i < altitudes.len() - 1 implies #[trigger] settled.ensures(
                    (&latitudes[i], &latitudes[i + 1]),
                    false,
                ) by {
                    if i < steps - 1 {
                        assert(settled.ensures(
                            (&before_latitudes[i], &before_latitudes[i + 1]),
                            false,
                        ));
                    }
                }
            }
            steps = steps + 1;
            // either way the record so far is the witness of the outcome
            if done {
                assert(latitude_trace(*ecef, *refine, *settled, latitudes, altitudes));
                return Some(Geodetic { lat: next, lon, alt });
            }
            lat = next;
            if steps >= MAX_LATITUDE_ITERATIONS {
                assert(latitude_trace(*ecef, *refine, *settled, latitudes, altitudes));
                return None;
            }
        }
    }
}

} // verus!
