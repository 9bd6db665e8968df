//! Conversions between the values of the wire and those of the library.
use crate::astro::look_angles::LookAnglesComputation;
use crate::astro::position::PositionComputation;
use crate::astro::time::UtcDateTime;
use crate::domain::errors::TimestampConversionError;
use chrono::{Datelike, TimeZone, Timelike};
use vstd::prelude::*;
use vstd::std_specs::convert::FromSpecImpl;

verus! {

/// A point in time as the wire carries it: seconds of UTC since the UNIX
/// epoch, and nanoseconds past the second.
#[derive(Clone, Copy, Debug, PartialEq, Eq, Structural)]
pub struct Timestamp {
    pub seconds: i64,
    pub nanos: i32,
}

/// Whether no instant has the given timestamp.
pub open spec fn names_no_instant(seconds: int, nanos: int) -> bool {
    forall|t: UtcDateTime| !#[trigger] t.spec_at(seconds, nanos)
}

/// Calls `chrono::Utc.timestamp_opt` and reads the civil fields of the
/// instant it names, if it names one.
///
/// `chrono` counts 86400 seconds for each day of the proleptic Gregorian
/// calendar from 1970-01-01, which is the count of `spec_timestamp`, and
/// keeps the nanoseconds as they are, a leap second included. It names an
/// instant for every timestamp within its years, and for no other.
#[verifier::external_body]
fn utc_from_timestamp(seconds: i64, nanos: u32) -> (r: Option<UtcDateTime>)
    ensures
        r matches Some(t) ==> t.spec_at(seconds as int, nanos as int),
        r is None ==> names_no_instant(seconds as int, nanos as int),
{
    chrono::Utc.timestamp_opt(seconds, nanos).single().and_then(
        |t| UtcDateTime::new(
            t.year(),
            t.month(),
            t.day(),
            t.hour(),
            t.minute(),
            t.second(),
            t.nanosecond(),
        ),
    )
}

/// The timestamp of a UTC instant.
pub open spec fn timestamp_of(datetime: UtcDateTime) -> Timestamp {
    Timestamp {
        seconds: datetime.spec_timestamp() as i64,
        nanos: datetime.spec_nanosecond() as i32,
    }
}

/// A point in time that can be read as a UTC instant.
pub trait ToChrono {
    /// Whether `outcome` is what `to_chrono` returns.
    spec fn chrono_outcome(
        &self,
        outcome: Result<UtcDateTime, TimestampConversionError>,
    ) -> bool;

    /// The UTC instant of this point in time.
    fn to_chrono(&self) -> (r: Result<UtcDateTime, TimestampConversionError>)
        ensures
            self.chrono_outcome(r),
    ;
}

/// A UTC instant that can be written as a timestamp of the wire.
pub trait ToProtoTimestamp {
    /// Whether `outcome` is what `to_proto_timestamp` returns.
    spec fn proto_timestamp_outcome(
        &self,
        outcome: Result<Timestamp, TimestampConversionError>,
    ) -> bool;

    /// The timestamp of this instant.
    fn to_proto_timestamp(&self) -> (r: Result<Timestamp, TimestampConversionError>)
        ensures
            self.proto_timestamp_outcome(r),
    ;
}

impl ToChrono for Timestamp {
    /// Negative nanoseconds are refused as out of range. Otherwise the
    /// outcome is the instant with this timestamp, of which there is at most
    /// one, or the refusal of a timestamp that no instant has.
    open spec fn chrono_outcome(
        &self,
        outcome: Result<UtcDateTime, TimestampConversionError>,
    ) -> bool {
        if self.nanos < 0 {
            outcome matches Err(TimestampConversionError::NanosOutOfRange(_))
        } else {
            match outcome {
                Ok(t) => t.spec_at(self.seconds as int, self.nanos as int),
                Err(e) => e == TimestampConversionError::InvalidTimestamp && names_no_instant(
                    self.seconds as int,
                    self.nanos as int,
                ),
            }
        }
    }

    fn to_chrono(&self) -> (r: Result<UtcDateTime, TimestampConversionError>) {
        let nanos = match u32::try_from(self.nanos) {
            Ok(n) => n,
            Err(e) => {
                return Err(TimestampConversionError::NanosOutOfRange(e));
            },
        };
        instant_of(utc_from_timestamp(self.seconds, nanos))
    }
}

impl ToProtoTimestamp for UtcDateTime {
    /// Every instant has a timestamp: the outcome is never an error.
    open spec fn proto_timestamp_outcome(
        &self,
        outcome: Result<Timestamp, TimestampConversionError>,
    ) -> bool {
        &&& outcome == Ok::<Timestamp, TimestampConversionError>(timestamp_of(*self))
        &&& self.spec_at(timestamp_of(*self).seconds as int, timestamp_of(*self).nanos as int)
    }

    fn to_proto_timestamp(&self) -> (r: Result<Timestamp, TimestampConversionError>) {
        let nanos: i32 = self.nanosecond() as i32;
        Ok(Timestamp { seconds: self.timestamp(), nanos })
    }
}

/// The timestamp of an instant leads back to that instant, and to no other.
pub proof fn lemma_timestamp_round_trip(
    instant: UtcDateTime,
    outcome: Result<UtcDateTime, TimestampConversionError>,
)
    requires
        instant.is_valid(),
        timestamp_of(instant).chrono_outcome(outcome),
    ensures
        outcome == Ok::<UtcDateTime, TimestampConversionError>(instant),
{
    let stamp = timestamp_of(instant);
    assert(instant.spec_at(stamp.seconds as int, stamp.nanos as int));
    match outcome {
        Ok(t) => {
            crate::astro::time::lemma_timestamp_names_one_instant(t, instant);
        },
        Err(_) => {},
    }
}

/// The instant that the calendar named, or the refusal of a timestamp for
/// which it named none.
pub fn instant_of(named: Option<UtcDateTime>) -> (r: Result<UtcDateTime, TimestampConversionError>)
    ensures
        r == match named {
            Some(t) => Ok::<UtcDateTime, TimestampConversionError>(t),
            None => Err(TimestampConversionError::InvalidTimestamp),
        },
{
    match named {
        Some(t) => Ok(t),
        None => Err(TimestampConversionError::InvalidTimestamp),
    }
}

/// The paths of the result that a request selects.
#[derive(Clone, Debug)]
pub struct FieldMask {
    pub paths: Vec<String>,
}

/// Calls `str::starts_with`: whether `prefix` is how `text` begins.
#[verifier::external_body]
fn starts_with(text: &str, prefix: &str) -> (r: bool)
    ensures
        r == prefix@.is_prefix_of(text@),
{
    text.starts_with(prefix)
}

/// Whether some path begins with `prefix`.
pub open spec fn selects(paths: Seq<String>, prefix: Seq<char>) -> bool {
    exists|i: int| 0 <= i < paths.len() && prefix.is_prefix_of(#[trigger] paths[i]@)
}

impl FieldMask {
    /// Whether the mask selects the field `prefix`: some path begins with
    /// it.
    pub fn has(&self, prefix: &str) -> (r: bool)
        ensures
            r == selects(self.paths@, prefix@),
    {
        let mut i: usize = 0;
        while i < self.paths.len()
            invariant
                i <= self.paths.len(),
                forall|j: int| 0 <= j < i ==> !prefix@.is_prefix_of(#[trigger] self.paths@[j]@),
            decreases self.paths.len() - i,
        {
            if starts_with(self.paths[i].as_str(), prefix) {
                return true;
            }
            i = i + 1;
        }
        false
    }
}

/// The frames that a mask selects.
pub open spec fn position_selection(paths: Seq<String>) -> PositionComputation {
    PositionComputation {
        eci: selects(paths, "eci"@),
        ecef: selects(paths, "ecef"@),
        geodetic: selects(paths, "geodetic"@),
    }
}

/// The look angles that a mask selects.
pub open spec fn look_angles_selection(paths: Seq<String>) -> LookAnglesComputation {
    LookAnglesComputation {
        azimuth: selects(paths, "azimuth"@),
        elevation: selects(paths, "elevation"@),
        range: selects(paths, "range"@),
    }
}

impl<'a> From<&'a FieldMask> for PositionComputation {
    fn from(mask: &'a FieldMask) -> (r: Self) {
        PositionComputation {
            eci: mask.has("eci"),
            ecef: mask.has("ecef"),
            geodetic: mask.has("geodetic"),
        }
    }
}

impl<'a> FromSpecImpl<&'a FieldMask> for PositionComputation {
    open spec fn obeys_from_spec() -> bool {
        true
    }

    open spec fn from_spec(mask: &'a FieldMask) -> Self {
        position_selection(mask.paths@)
    }
}

impl<'a> From<&'a FieldMask> for LookAnglesComputation {
    fn from(mask: &'a FieldMask) -> (r: Self) {
        LookAnglesComputation {
            azimuth: mask.has("azimuth"),
            elevation: mask.has("elevation"),
            range: mask.has("range"),
        }
    }
}

impl<'a> FromSpecImpl<&'a FieldMask> for LookAnglesComputation {
    open spec fn obeys_from_spec() -> bool {
        true
    }

    open spec fn from_spec(mask: &'a FieldMask) -> Self {
        look_angles_selection(mask.paths@)
    }
}

} // verus!
