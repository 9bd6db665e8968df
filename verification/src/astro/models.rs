//! Values that the orchestration hands out.
use crate::astro::coords::ecef::Ecef;
use crate::astro::coords::eci::Eci;
use crate::astro::coords::geodetic::Geodetic;
use crate::astro::time::UtcDateTime;
use vstd::prelude::*;

verus! {

/// A two-line element set as the TLE source delivers it.
#[derive(Clone, Debug)]
pub struct Tle {
    pub norad_id: u32,
    pub satellite_name: String,
    pub line1: String,
    pub line2: String,
    pub epoch: UtcDateTime,
}

/// A satellite's position in up to three frames, each present exactly when
/// it was asked for.
#[derive(Clone, Copy, Debug)]
pub struct SatellitePosition<A, L> {
    pub eci: Option<Eci<L>>,
    pub ecef: Option<Ecef<L>>,
    pub geodetic: Option<Geodetic<A, L>>,
}

/// Topocentric look angles, each present exactly when it was asked for.
#[derive(Clone, Copy, Debug)]
pub struct LookAngles<A, L> {
    pub azimuth: Option<A>,
    pub elevation: Option<A>,
    pub range: Option<L>,
}

impl<A, L> SatellitePosition<A, L> {
    /// The position with no frame present.
    pub open spec fn spec_absent() -> Self {
        SatellitePosition { eci: None, ecef: None, geodetic: None }
    }

    /// The position with no frame present.
    pub fn absent() -> (r: Self)
        ensures
            r == Self::spec_absent(),
    {
        SatellitePosition { eci: None, ecef: None, geodetic: None }
    }
}

impl<A, L> LookAngles<A, L> {
    /// The look angles with no quantity present.
    pub open spec fn spec_absent() -> Self {
        LookAngles { azimuth: None, elevation: None, range: None }
    }

    /// The look angles with no quantity present.
    pub fn absent() -> (r: Self)
        ensures
            r == Self::spec_absent(),
    {
        LookAngles { azimuth: None, elevation: None, range: None }
    }
}

} // verus!
