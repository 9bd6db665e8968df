//! The propagation kernel: SGP4 on a two-line element set.
use crate::astro::models::Tle;
use crate::astro::time::UtcDateTime;
use crate::domain::errors::PropagationError;
use vstd::prelude::*;
use vstd::string::StrSliceExecFns;

verus! {

/// `sgp4::Elements`: the orbital elements of a satellite at their epoch. Carried through unopened.
#[verifier::external_type_specification]
#[verifier::external_body]
pub struct ExElements(sgp4::Elements);

/// `sgp4::Constants`: what the kernel derives from the elements once. Carried through unopened.
#[verifier::external_type_specification]
#[verifier::external_body]
pub struct ExConstants(sgp4::Constants);

/// `sgp4::Prediction`: a position and a velocity in the inertial frame. Carried through unopened.
#[verifier::external_type_specification]
#[verifier::external_body]
pub struct ExPrediction(sgp4::Prediction);

/// `sgp4::MinutesSinceEpoch`: an offset in time from the epoch of the elements. Carried through unopened.
#[verifier::external_type_specification]
#[verifier::external_body]
pub struct ExMinutesSinceEpoch(sgp4::MinutesSinceEpoch);

/// Length of a TLE line in characters.
pub const TLE_LINE_LENGTH: usize = 69;

/// What `sgp4::Elements::from_tle` makes of a name and two lines.
pub uninterp spec fn parsed_elements(name: Seq<char>, line1: Seq<char>, line2: Seq<char>) -> Result<
    sgp4::Elements,
    sgp4::TleError,
>;

/// What `sgp4::Constants::from_elements` derives from an element set.
pub uninterp spec fn derived_constants(elements: sgp4::Elements) -> Result<
    sgp4::Constants,
    sgp4::ElementsError,
>;

/// What `sgp4::Elements::datetime_to_minutes_since_epoch` makes of the
/// instant with the given civil fields.
pub uninterp spec fn epoch_offset(
    elements: sgp4::Elements,
    year: int,
    month: int,
    day: int,
    hour: int,
    minute: int,
    second: int,
    nanosecond: int,
) -> Result<sgp4::MinutesSinceEpoch, sgp4::DatetimeToMinutesSinceEpochError>;

/// Whether an offset from the epoch is within reach of the kernel: a number
/// of minutes that amounts to at most 2^63 nanoseconds either way.
pub uninterp spec fn offset_within_reach(offset: sgp4::MinutesSinceEpoch) -> bool;

/// What `sgp4::Constants::propagate` predicts at an offset from the epoch.
pub uninterp spec fn propagated(
    constants: sgp4::Constants,
    offset: sgp4::MinutesSinceEpoch,
) -> Result<sgp4::Prediction, sgp4::Error>;

/// An orbital element set ready for propagation.
pub struct Propagator {
    pub elements: sgp4::Elements,
    pub constants: sgp4::Constants,
}

/// Whether the checksum columns can be read: where both lines have the
/// length of a TLE line, the last character of each is `'0'` or above, so
/// that the parser can take its digit value.
pub open spec fn checksum_columns_readable(line1: Seq<char>, line2: Seq<char>) -> bool {
    line1.len() == TLE_LINE_LENGTH && line2.len() == TLE_LINE_LENGTH ==> line1[TLE_LINE_LENGTH
        - 1] as u32 >= 0x30 && line2[TLE_LINE_LENGTH - 1] as u32 >= 0x30
}

/// Calls `sgp4::Elements::from_tle` with the name as the object name.
///
/// The parser is a function of its three arguments. It is documented for
/// lines of ASCII characters, and reads parts of a line as text without
/// looking at the encoding. On two lines of 69 bytes it subtracts `'0'` from
/// the last byte of each, which overflows below `'0'`. Lines that are not
/// ASCII, and lines with such a last byte, are kept away from it.
#[verifier::external_body]
fn parse_elements(name: &String, line1: &str, line2: &str) -> (r: Result<
    sgp4::Elements,
    sgp4::TleError,
>)
    requires
        vstd::string::is_ascii(line1),
        vstd::string::is_ascii(line2),
        checksum_columns_readable(line1@, line2@),
    ensures
        r == parsed_elements(name@, line1@, line2@),
{
    sgp4::Elements::from_tle(Some(name.clone()), line1.as_bytes(), line2.as_bytes())
}

/// Calls `sgp4::Constants::from_elements`, a function of the element set.
#[verifier::external_body]
fn derive_constants(elements: &sgp4::Elements) -> (r: Result<sgp4::Constants, sgp4::ElementsError>)
    ensures
        r == derived_constants(*elements),
{
    sgp4::Constants::from_elements(elements)
}

/// Calls `sgp4::Elements::datetime_to_minutes_since_epoch` on the instant,
/// handed over as a `chrono::NaiveDateTime` with the same civil fields.
///
/// The offset is a function of the element set and the instant, and it is
/// within reach: a number of nanoseconds that fits 64 bits, divided by the
/// nanoseconds of a minute. Every `UtcDateTime` names an instant that
/// `chrono` can hold, so the two constructors cannot fail.
#[verifier::external_body]
fn minutes_since_epoch(elements: &sgp4::Elements, instant: &UtcDateTime) -> (r: Result<
    sgp4::MinutesSinceEpoch,
    sgp4::DatetimeToMinutesSinceEpochError,
>)
    ensures
        r == epoch_offset(
            *elements,
            instant.spec_year(),
            instant.spec_month(),
            instant.spec_day(),
            instant.spec_hour(),
            instant.spec_minute(),
            instant.spec_second(),
            instant.spec_nanosecond(),
        ),
        r matches Ok(offset) ==> offset_within_reach(offset),
{
    let date = chrono::NaiveDate::from_ymd_opt(instant.year(), instant.month(), instant.day());
    let naive = date.unwrap().and_hms_nano_opt(
        instant.hour(),
        instant.minute(),
        instant.second(),
        instant.nanosecond(),
    );
    elements.datetime_to_minutes_since_epoch(&naive.unwrap())
}

/// Calls `sgp4::Constants::propagate`, a function of the constants and the
/// offset. On a resonant orbit the kernel steps towards the offset half a
/// day at a time, which comes to an end for an offset within reach, and
/// need not for one that is no number or beyond the precision of its steps.
#[verifier::external_body]
fn propagate(constants: &sgp4::Constants, offset: sgp4::MinutesSinceEpoch) -> (r: Result<
    sgp4::Prediction,
    sgp4::Error,
>)
    requires
        offset_within_reach(offset),
    ensures
        r == propagated(*constants, offset),
{
    constants.propagate(offset)
}

/// What is made of parsed elements: the propagator with their constants, or
/// the refusal of the parser or of the derivation.
pub open spec fn propagator_from(parsed: Result<sgp4::Elements, sgp4::TleError>) -> Result<
    Propagator,
    PropagationError,
> {
    match parsed {
        Err(e) => Err(PropagationError::TleParse(e)),
        Ok(elements) => match derived_constants(elements) {
            Err(e) => Err(PropagationError::ElementsCreation(e)),
            Ok(constants) => Ok(Propagator { elements, constants }),
        },
    }
}

/// What `Propagator::eci_at` returns, given the offset of the instant from
/// the epoch.
pub open spec fn prediction_from(
    constants: sgp4::Constants,
    offset: Result<sgp4::MinutesSinceEpoch, sgp4::DatetimeToMinutesSinceEpochError>,
) -> Result<sgp4::Prediction, PropagationError> {
    match offset {
        Err(e) => Err(PropagationError::DatetimeToMinutesSinceEpochFailed(e)),
        Ok(minutes) => match propagated(constants, minutes) {
            Err(e) => Err(PropagationError::PropagationFailed(e)),
            Ok(prediction) => Ok(prediction),
        },
    }
}

/// Builds the propagator from parsed elements, or passes the parser's
/// refusal on.
pub fn propagator_of(parsed: Result<sgp4::Elements, sgp4::TleError>) -> (r: Result<
    Propagator,
    PropagationError,
>)
    ensures
        r == propagator_from(parsed),
{
    match parsed {
        Err(e) => Err(PropagationError::TleParse(e)),
        Ok(elements) => match derive_constants(&elements) {
            Err(e) => Err(PropagationError::ElementsCreation(e)),
            Ok(constants) => Ok(Propagator { elements, constants }),
        },
    }
}

impl Propagator {
    /// What `from_tle` returns for `tle`: lines that are not ASCII are
    /// refused, then lines whose checksum column cannot be read, and what is
    /// left goes to the parser.
    pub open spec fn spec_from_tle(tle: &Tle) -> Result<Self, PropagationError> {
        if !(vstd::utf8::is_ascii_chars(tle.line1@) && vstd::utf8::is_ascii_chars(tle.line2@)) {
            Err(PropagationError::TleNotAscii)
        } else if !checksum_columns_readable(tle.line1@, tle.line2@) {
            Err(PropagationError::TleChecksumNotDigit)
        } else {
            propagator_from(parsed_elements(tle.satellite_name@, tle.line1@, tle.line2@))
        }
    }

    /// Parses the element set of `tle` and derives its propagation
    /// constants.
    pub fn from_tle(tle: &Tle) -> (r: Result<Self, PropagationError>)
        ensures
            r == Self::spec_from_tle(tle),
    {
        let line1 = tle.line1.as_str();
        let line2 = tle.line2.as_str();
        if !line1.is_ascii() || !line2.is_ascii() {
            return Err(PropagationError::TleNotAscii);
        }
        if line1.unicode_len() == TLE_LINE_LENGTH && line2.unicode_len() == TLE_LINE_LENGTH {
            if line1.get_ascii(TLE_LINE_LENGTH - 1) < 0x30 || line2.get_ascii(TLE_LINE_LENGTH - 1)
                < 0x30 {
                return Err(PropagationError::TleChecksumNotDigit);
            }
        }
        propagator_of(parse_elements(&tle.satellite_name, line1, line2))
    }

    /// What `eci_at` returns for the instant `datetime`.
    pub open spec fn spec_eci_at(&self, datetime: &UtcDateTime) -> Result<
        sgp4::Prediction,
        PropagationError,
    > {
        prediction_from(
            self.constants,
            epoch_offset(
                self.elements,
                datetime.spec_year(),
                datetime.spec_month(),
                datetime.spec_day(),
                datetime.spec_hour(),
                datetime.spec_minute(),
                datetime.spec_second(),
                datetime.spec_nanosecond(),
            ),
        )
    }

    /// Propagates the elements to `datetime`: the satellite's position and
    /// velocity in the inertial frame of the kernel.
    pub fn eci_at(&self, datetime: &UtcDateTime) -> (r: Result<sgp4::Prediction, PropagationError>)
        ensures
            r == self.spec_eci_at(datetime),
    {
        self.predict(minutes_since_epoch(&self.elements, datetime))
    }

    /// Propagates the elements by an offset from their epoch, or passes on
    /// why there is no offset.
    pub fn predict(
        &self,
        offset: Result<sgp4::MinutesSinceEpoch, sgp4::DatetimeToMinutesSinceEpochError>,
    ) -> (r: Result<sgp4::Prediction, PropagationError>)
        requires
            offset matches Ok(minutes) ==> offset_within_reach(minutes),
        ensures
            r == prediction_from(self.constants, offset),
    {
        match offset {
            Err(e) => Err(PropagationError::DatetimeToMinutesSinceEpochFailed(e)),
            Ok(minutes) => match propagate(&self.constants, minutes) {
                Err(e) => Err(PropagationError::PropagationFailed(e)),
                Ok(prediction) => Ok(prediction),
            },
        }
    }
}

} // verus!
