//! UTC instants as civil calendar fields, and their Julian date.
//!
//! The Julian date of an instant is kept exact: an integral Julian day number
//! (the Julian date at noon of the civil day) and the time of day. The
//! fractional day and everything derived from it are left to the caller.
use vstd::prelude::*;

verus! {

/// Earliest year an instant may carry: the first that `chrono` holds.
pub const MIN_YEAR: i32 = -262143;

/// Latest year an instant may carry: the last that `chrono` holds.
pub const MAX_YEAR: i32 = 262142;

/// Largest nanosecond field: values from one billion up denote a leap second.
pub const MAX_NANOSECOND: u32 = 1_999_999_999;

/// Julian day number of 2000-01-01, the day of the J2000.0 epoch.
pub const J2000_DAY_NUMBER: i64 = 2_451_545;

/// Julian day number of 1970-01-01, the day of the UNIX epoch.
pub const UNIX_EPOCH_DAY_NUMBER: i64 = 2_440_588;

/// Seconds in a civil day.
pub const SECONDS_PER_DAY: i64 = 86_400;

/// Gregorian leap-year rule.
pub open spec fn is_leap_year(year: int) -> bool {
    year % 4 == 0 && (year % 100 != 0 || year % 400 == 0)
}

/// Number of days of `month` in `year`; zero for a month outside 1..=12.
pub open spec fn days_in_month(year: int, month: int) -> int {
    if month == 2 {
        if is_leap_year(year) {
            29
        } else {
            28
        }
    } else if month == 4 || month == 6 || month == 9 || month == 11 {
        30
    } else if 1 <= month <= 12 {
        31
    } else {
        0
    }
}

/// Whether the seven fields name an instant of the proleptic Gregorian
/// calendar. A nanosecond field of one billion or more stands for a leap
/// second and is only allowed in the last second of a minute.
pub open spec fn valid_civil_fields(
    year: int,
    month: int,
    day: int,
    hour: int,
    minute: int,
    second: int,
    nanosecond: int,
) -> bool {
    &&& MIN_YEAR <= year <= MAX_YEAR
    &&& 1 <= month <= 12
    &&& 1 <= day <= days_in_month(year, month)
    &&& 0 <= hour < 24
    &&& 0 <= minute < 60
    &&& 0 <= second < 60
    &&& 0 <= nanosecond <= MAX_NANOSECOND
    &&& (nanosecond >= 1_000_000_000 ==> second == 59)
}

/// Julian day number of a civil date: the Julian date at noon of that day.
///
/// January and February count as months 13 and 14 of the year before; the
/// century term corrects the Julian leap rule to the Gregorian one.
pub open spec fn julian_day_number(year: int, month: int, day: int) -> int {
    let yy = if month <= 2 {
        year - 1
    } else {
        year
    };
    let mm = if month <= 2 {
        month + 12
    } else {
        month
    };
    let century = yy / 100;
    let correction = 2 - century + century / 4;
    (1461 * (yy + 4716)) / 4 + (306001 * (mm + 1)) / 10000 + day + correction - 1524
}

/// Seconds elapsed since midnight.
pub open spec fn second_of_day(hour: int, minute: int, second: int) -> int {
    3600 * hour + 60 * minute + second
}

/// The civil day after `(year, month, day)`.
pub open spec fn next_day(year: int, month: int, day: int) -> (int, int, int) {
    if day < days_in_month(year, month) {
        (year, month, day + 1)
    } else if month < 12 {
        (year, month + 1, 1)
    } else {
        (year + 1, 1, 1)
    }
}

/// The instant one second after the given one, leap seconds aside.
pub open spec fn next_second(
    year: int,
    month: int,
    day: int,
    hour: int,
    minute: int,
    second: int,
) -> (int, int, int, int, int, int) {
    if second < 59 {
        (year, month, day, hour, minute, second + 1)
    } else if minute < 59 {
        (year, month, day, hour, minute + 1, 0)
    } else if hour < 23 {
        (year, month, day, hour + 1, 0, 0)
    } else {
        let d = next_day(year, month, day);
        (d.0, d.1, d.2, 0, 0, 0)
    }
}

/// Seconds from the J2000.0 epoch (2000-01-01 12:00) to a civil instant.
/// Divided by `86400 * 36525` this is the instant's Julian centuries.
pub open spec fn seconds_since_j2000(
    year: int,
    month: int,
    day: int,
    hour: int,
    minute: int,
    second: int,
) -> int {
    SECONDS_PER_DAY * (julian_day_number(year, month, day) - J2000_DAY_NUMBER) - SECONDS_PER_DAY
        / 2 + second_of_day(hour, minute, second)
}

/// Non-leap seconds from the UNIX epoch (1970-01-01 00:00) to a civil
/// instant.
pub open spec fn unix_seconds(
    year: int,
    month: int,
    day: int,
    hour: int,
    minute: int,
    second: int,
) -> int {
    SECONDS_PER_DAY * (julian_day_number(year, month, day) - UNIX_EPOCH_DAY_NUMBER)
        + second_of_day(hour, minute, second)
}

/// The Julian date of an instant, exact to the second.
///
/// The Julian date is `day_number - 1/2 + (hour + minute/60 + second/3600)/24`.
#[derive(Clone, Copy, Debug, PartialEq, Eq, Structural)]
pub struct JulianDate {
    /// Julian day number of the civil day.
    pub day_number: i64,
    /// Hour of the day, below 24.
    pub hour: u32,
    /// Minute of the hour, below 60.
    pub minute: u32,
    /// Second of the minute, below 60.
    pub second: u32,
}

/// A UTC instant held as civil calendar fields. Every value names an instant
/// of the calendar: see [`valid_civil_fields`].
#[derive(Clone, Copy, Debug)]
pub struct UtcDateTime {
    year: i32,
    month: u32,
    day: u32,
    hour: u32,
    minute: u32,
    second: u32,
    nanosecond: u32,
}

/// Quotient rounded towards negative infinity.
fn floor_div(n: i64, d: i64) -> (q: i64)
    requires
        d > 0,
        -0x4000_0000_0000_0000 < n < 0x4000_0000_0000_0000,
    ensures
        q == n / d,
{
    if n >= 0 {
        n / d
    } else {
        let m: i64 = -n - 1;
        let q: i64 = -(m / d) - 1;
        assert(q == n / d) by (nonlinear_arith)
            requires
                d > 0,
                n < 0,
                m == -n - 1,
                q == -(m / d) - 1,
        {
            let k = m / d;
            let r = m % d;
            assert(m == d * k + r && 0 <= r < d);
            assert(n == d * (-k - 1) + (d - 1 - r));
            assert(0 <= d - 1 - r < d);
        }
        q
    }
}

/// Whether `year` is a leap year of the Gregorian calendar.
pub fn leap_year(year: i32) -> (r: bool)
    ensures
        r == is_leap_year(year as int),
{
    let y: i64 = year as i64;
    let m4: i64 = y - 4 * floor_div(y, 4);
    let m100: i64 = y - 100 * floor_div(y, 100);
    let m400: i64 = y - 400 * floor_div(y, 400);
    m4 == 0 && (m100 != 0 || m400 == 0)
}

/// Number of days of `month` in `year`; zero for a month outside 1..=12.
pub fn month_length(year: i32, month: u32) -> (r: u32)
    ensures
        r == days_in_month(year as int, month as int),
{
    if month == 2 {
        if leap_year(year) {
            29
        } else {
            28
        }
    } else if month == 4 || month == 6 || month == 9 || month == 11 {
        30
    } else if 1 <= month && month <= 12 {
        31
    } else {
        0
    }
}

impl UtcDateTime {
    #[verifier::type_invariant]
    spec fn well_formed(&self) -> bool {
        valid_civil_fields(
            self.year as int,
            self.month as int,
            self.day as int,
            self.hour as int,
            self.minute as int,
            self.second as int,
            self.nanosecond as int,
        )
    }

    /// Calendar year.
    pub closed spec fn spec_year(&self) -> int {
        self.year as int
    }

    /// Month of the year, from 1.
    pub closed spec fn spec_month(&self) -> int {
        self.month as int
    }

    /// Day of the month, from 1.
    pub closed spec fn spec_day(&self) -> int {
        self.day as int
    }

    /// Hour of the day.
    pub closed spec fn spec_hour(&self) -> int {
        self.hour as int
    }

    /// Minute of the hour.
    pub closed spec fn spec_minute(&self) -> int {
        self.minute as int
    }

    /// Second of the minute.
    pub closed spec fn spec_second(&self) -> int {
        self.second as int
    }

    /// Nanoseconds past the second; one billion or more in a leap second.
    pub closed spec fn spec_nanosecond(&self) -> int {
        self.nanosecond as int
    }

    /// Non-leap seconds from the UNIX epoch to the instant.
    pub open spec fn spec_timestamp(&self) -> int {
        unix_seconds(
            self.spec_year(),
            self.spec_month(),
            self.spec_day(),
            self.spec_hour(),
            self.spec_minute(),
            self.spec_second(),
        )
    }

    /// Whether this value is the instant with the given timestamp: so many
    /// seconds from the UNIX epoch, and nanoseconds past the second.
    pub open spec fn spec_at(&self, seconds: int, nanos: int) -> bool {
        self.is_valid() && self.spec_timestamp() == seconds && self.spec_nanosecond() == nanos
    }

    /// Whether the fields of this value name an instant of the calendar.
    pub open spec fn is_valid(&self) -> bool {
        valid_civil_fields(
            self.spec_year(),
            self.spec_month(),
            self.spec_day(),
            self.spec_hour(),
            self.spec_minute(),
            self.spec_second(),
            self.spec_nanosecond(),
        )
    }

    /// Builds an instant from its civil fields, or nothing when they do not
    /// name one.
    pub fn new(
        year: i32,
        month: u32,
        day: u32,
        hour: u32,
        minute: u32,
        second: u32,
        nanosecond: u32,
    ) -> (r: Option<Self>)
        ensures
            r is Some <==> valid_civil_fields(
                year as int,
                month as int,
                day as int,
                hour as int,
                minute as int,
                second as int,
                nanosecond as int,
            ),
            r matches Some(t) ==> {
                &&& t.spec_year() == year
                &&& t.spec_month() == month
                &&& t.spec_day() == day
                &&& t.spec_hour() == hour
                &&& t.spec_minute() == minute
                &&& t.spec_second() == second
                &&& t.spec_nanosecond() == nanosecond
            },
    {
        if year < MIN_YEAR || year > MAX_YEAR || month < 1 || month > 12 || day < 1 {
            return None;
        }
        if day > month_length(year, month) || hour >= 24 || minute >= 60 || second >= 60 {
            return None;
        }
        if nanosecond > MAX_NANOSECOND || (nanosecond >= 1_000_000_000 && second != 59) {
            return None;
        }
        Some(UtcDateTime { year, month, day, hour, minute, second, nanosecond })
    }

    /// Calendar year.
    pub fn year(&self) -> (r: i32)
        ensures
            r == self.spec_year(),
            self.is_valid(),
            MIN_YEAR <= r <= MAX_YEAR,
    {
        proof {
            use_type_invariant(self);
        }
        self.year
    }

    /// Month of the year, from 1 to 12.
    pub fn month(&self) -> (r: u32)
        ensures
            r == self.spec_month(),
            self.is_valid(),
            1 <= r <= 12,
    {
        proof {
            use_type_invariant(self);
        }
        self.month
    }

    /// Day of the month, from 1.
    pub fn day(&self) -> (r: u32)
        ensures
            r == self.spec_day(),
            self.is_valid(),
            1 <= r <= days_in_month(self.spec_year(), self.spec_month()),
    {
        proof {
            use_type_invariant(self);
        }
        self.day
    }

    /// Hour of the day, below 24.
    pub fn hour(&self) -> (r: u32)
        ensures
            r == self.spec_hour(),
            self.is_valid(),
            r < 24,
    {
        proof {
            use_type_invariant(self);
        }
        self.hour
    }

    /// Minute of the hour, below 60.
    pub fn minute(&self) -> (r: u32)
        ensures
            r == self.spec_minute(),
            self.is_valid(),
            r < 60,
    {
        proof {
            use_type_invariant(self);
        }
        self.minute
    }

    /// Second of the minute, below 60.
    pub fn second(&self) -> (r: u32)
        ensures
            r == self.spec_second(),
            self.is_valid(),
            r < 60,
    {
        proof {
            use_type_invariant(self);
        }
        self.second
    }

    /// Nanoseconds past the second.
    pub fn nanosecond(&self) -> (r: u32)
        ensures
            r == self.spec_nanosecond(),
            self.is_valid(),
            r <= MAX_NANOSECOND,
    {
        proof {
            use_type_invariant(self);
        }
        self.nanosecond
    }

    /// Julian day number of the instant's civil day.
    pub fn julian_day(&self) -> (r: i64)
        ensures
            r == julian_day_number(self.spec_year(), self.spec_month(), self.spec_day()),
            -95_000_000 < r < 98_000_000,
    {
        proof {
            use_type_invariant(self);
        }
        let year: i64 = self.year as i64;
        let month: i64 = self.month as i64;
        let yy: i64 = if month <= 2 {
            year - 1
        } else {
            year
        };
        let mm: i64 = if month <= 2 {
            month + 12
        } else {
            month
        };
        let century: i64 = floor_div(yy, 100);
        let correction: i64 = 2 - century + floor_div(century, 4);
        let year_days: i64 = floor_div(1461 * (yy + 4716), 4);
        let month_days: i64 = (306001 * (mm + 1)) / 10000;
        year_days + month_days + (self.day as i64) + correction - 1524
    }

    /// Julian date of the instant, exact to the second. Nanoseconds are
    /// dropped, as the sidereal-time formula asks.
    pub fn julian_date(&self) -> (r: JulianDate)
        ensures
            r.day_number == julian_day_number(self.spec_year(), self.spec_month(), self.spec_day()),
            r.hour == self.spec_hour(),
            r.minute == self.spec_minute(),
            r.second == self.spec_second(),
            r.hour < 24 && r.minute < 60 && r.second < 60,
    {
        proof {
            use_type_invariant(self);
        }
        JulianDate {
            day_number: self.julian_day(),
            hour: self.hour,
            minute: self.minute,
            second: self.second,
        }
    }

    /// Non-leap seconds from the UNIX epoch to the instant.
    pub fn timestamp(&self) -> (r: i64)
        ensures
            r == self.spec_timestamp(),
    {
        proof {
            use_type_invariant(self);
        }
        let days: i64 = self.julian_day() - UNIX_EPOCH_DAY_NUMBER;
        let of_day: i64 = 3600 * (self.hour as i64) + 60 * (self.minute as i64) + (
        self.second as i64);
        SECONDS_PER_DAY * days + of_day
    }

    /// Whole seconds from the J2000.0 epoch to the instant.
    pub fn seconds_since_j2000(&self) -> (r: i64)
        ensures
            r == seconds_since_j2000(
                self.spec_year(),
                self.spec_month(),
                self.spec_day(),
                self.spec_hour(),
                self.spec_minute(),
                self.spec_second(),
            ),
    {
        proof {
            use_type_invariant(self);
        }
        let days: i64 = self.julian_day() - J2000_DAY_NUMBER;
        let of_day: i64 = 3600 * (self.hour as i64) + 60 * (self.minute as i64) + (
        self.second as i64);
        SECONDS_PER_DAY * days - 43_200 + of_day
    }
}

/// The Julian date of a UTC instant, exact to the second.
pub fn datetime_to_julian(datetime: &UtcDateTime) -> (r: JulianDate)
    ensures
        r.day_number == julian_day_number(
            datetime.spec_year(),
            datetime.spec_month(),
            datetime.spec_day(),
        ),
        r.hour == datetime.spec_hour(),
        r.minute == datetime.spec_minute(),
        r.second == datetime.spec_second(),
        r.hour < 24 && r.minute < 60 && r.second < 60,
{
    datetime.julian_date()
}

/// What `normalize_angle` makes of `angle`: the angle reduced by whole
/// turns, and one turn more where the reduced angle is negative.
pub open spec fn normalized<A, M, N, T>(
    angle: A,
    reduce: M,
    is_negative: N,
    add_turn: T,
    outcome: A,
) -> bool where M: FnOnce(A) -> A, N: FnOnce(&A) -> bool, T: FnOnce(A) -> A {
    exists|reduced: A, negative: bool|
        {
            &&& #[trigger] reduce.ensures((angle,), reduced)
            &&& #[trigger] is_negative.ensures((&reduced,), negative)
            &&& if negative {
                add_turn.ensures((reduced,), outcome)
            } else {
                outcome == reduced
            }
        }
}

/// Brings an angle into the range of one turn from zero.
///
/// `reduce` takes the remainder of the angle by a whole turn, which has the
/// sign of the angle; where `is_negative` finds it below zero, `add_turn`
/// adds one turn to it.
pub fn normalize_angle<A, M, N, T>(angle: A, reduce: M, is_negative: N, add_turn: T) -> (r: A) where
    M: FnOnce(A) -> A,
    N: FnOnce(&A) -> bool,
    T: FnOnce(A) -> A,

    requires
        reduce.requires((angle,)),
        forall|a: A| #[trigger] is_negative.requires((&a,)),
        forall|a: A| #[trigger] add_turn.requires((a,)),
    ensures
        normalized(angle, reduce, is_negative, add_turn, r),
{
    let reduced = reduce(angle);
    if is_negative(&reduced) {
        add_turn(reduced)
    } else {
        reduced
    }
}

/// A normalized angle is never negative, as long as a negative remainder
/// stops being negative when a turn is added to it.
pub proof fn lemma_normalized_is_not_negative<A, M, N, T>(
    angle: A,
    reduce: M,
    is_negative: N,
    add_turn: T,
    outcome: A,
) where M: FnOnce(A) -> A, N: FnOnce(&A) -> bool, T: FnOnce(A) -> A
    requires
        normalized(angle, reduce, is_negative, add_turn, outcome),
        forall|a: A, b: A|
            is_negative.ensures((&a,), true) && #[trigger] add_turn.ensures((a,), b)
                ==> is_negative.ensures((&b,), false),
    ensures
        is_negative.ensures((&outcome,), false),
{
}

/// An angle that is not negative once reduced is handed out as it was
/// reduced: a turn is added to negative remainders only.
pub proof fn lemma_normalized_keeps_what_is_not_negative<A, M, N, T>(
    angle: A,
    reduce: M,
    is_negative: N,
    add_turn: T,
    outcome: A,
) where M: FnOnce(A) -> A, N: FnOnce(&A) -> bool, T: FnOnce(A) -> A
    requires
        normalized(angle, reduce, is_negative, add_turn, outcome),
        forall|a: A| reduce.ensures((angle,), a) ==> !#[trigger] is_negative.ensures((&a,), true),
    ensures
        reduce.ensures((angle,), outcome),
{
}

/// What `utc_to_gst` makes of an instant: the sidereal angle of its Julian
/// date, normalized.
pub open spec fn gst_outcome<A, G, M, N, T>(
    datetime: UtcDateTime,
    sidereal: G,
    reduce: M,
    is_negative: N,
    add_turn: T,
    outcome: A,
) -> bool where
    G: FnOnce(&JulianDate) -> A,
    M: FnOnce(A) -> A,
    N: FnOnce(&A) -> bool,
    T: FnOnce(A) -> A,
 {
    exists|date: JulianDate, raw: A|
        {
            &&& date.day_number == julian_day_number(
                datetime.spec_year(),
                datetime.spec_month(),
                datetime.spec_day(),
            )
            &&& date.hour == datetime.spec_hour()
            &&& date.minute == datetime.spec_minute()
            &&& date.second == datetime.spec_second()
            &&& #[trigger] sidereal.ensures((&date,), raw)
            &&& normalized(raw, reduce, is_negative, add_turn, outcome)
        }
}

/// Greenwich Sidereal Time of a UTC instant.
///
/// `sidereal` evaluates the sidereal-time polynomial at the instant's Julian
/// date and turns the seconds into an angle; the angle is then normalized as
/// by `normalize_angle`.
pub fn utc_to_gst<A, G, M, N, T>(
    datetime: &UtcDateTime,
    sidereal: G,
    reduce: M,
    is_negative: N,
    add_turn: T,
) -> (r: A) where
    G: FnOnce(&JulianDate) -> A,
    M: FnOnce(A) -> A,
    N: FnOnce(&A) -> bool,
    T: FnOnce(A) -> A,

    requires
        forall|date: JulianDate|
            date.hour < 24 && date.minute < 60 && date.second < 60 ==> #[trigger] sidereal.requires(
                (&date,),
            ),
        forall|a: A| #[trigger] reduce.requires((a,)),
        forall|a: A| #[trigger] is_negative.requires((&a,)),
        forall|a: A| #[trigger] add_turn.requires((a,)),
    ensures
        gst_outcome(*datetime, sidereal, reduce, is_negative, add_turn, r),
{
    let date = datetime_to_julian(datetime);
    let raw = sidereal(&date);
    normalize_angle(raw, reduce, is_negative, add_turn)
}

/// Days from the first of March to the first of month `mm`, where January
/// and February are months 13 and 14, up to a constant.
proof fn lemma_month_term(mm: int)
    requires
        3 <= mm <= 14,
    ensures
        (306001 * (mm + 1)) / 10000 == if mm == 3 {
            122int
        } else if mm == 4 {
            153
        } else if mm == 5 {
            183
        } else if mm == 6 {
            214
        } else if mm == 7 {
            244
        } else if mm == 8 {
            275
        } else if mm == 9 {
            306
        } else if mm == 10 {
            336
        } else if mm == 11 {
            367
        } else if mm == 12 {
            397
        } else if mm == 13 {
            428
        } else {
            459
        },
{
}

/// Days in the years up to `yy` by the Julian leap rule, taken apart into
/// linear terms.
proof fn lemma_year_term(yy: int)
    ensures
        (1461 * (yy + 4716)) / 4 == 365 * yy + yy / 4 + 1722519,
{
    assert(1461 * (yy + 4716) == 4 * (365 * yy + 1722519) + yy);
}

/// How the quotient by four steps from one year to the next.
proof fn lemma_step_by_four(yy: int)
    ensures
        (yy - 1) / 4 == if yy % 4 == 0 {
            yy / 4 - 1
        } else {
            yy / 4
        },
{
}

/// How the century steps from one year to the next.
proof fn lemma_step_by_hundred(yy: int)
    ensures
        (yy - 1) / 100 == if yy % 100 == 0 {
            yy / 100 - 1
        } else {
            yy / 100
        },
{
}

/// A year that ends a century is divisible by 400 exactly when its century
/// is divisible by four.
proof fn lemma_century_of_four_hundred(yy: int)
    requires
        yy % 100 == 0,
    ensures
        yy % 400 == 0 <==> (yy / 100) % 4 == 0,
{
    let c = yy / 100;
    let q = c / 4;
    let r = c % 4;
    assert(yy == 100 * c);
    assert(yy == 400 * q + 100 * r);
}

/// The Gregorian correction grows by the leap days that the Julian rule has
/// too many: none within a century, one at the end of a century that is not
/// divisible by 400.
proof fn lemma_correction_step(yy: int)
    ensures
        ({
            let c1 = yy / 100;
            let c0 = (yy - 1) / 100;
            (2 - c1 + c1 / 4) - (2 - c0 + c0 / 4) == if yy % 100 == 0 && yy % 400 != 0 {
                -1int
            } else {
                0int
            }
        }),
{
    lemma_step_by_hundred(yy);
    if yy % 100 == 0 {
        lemma_century_of_four_hundred(yy);
        lemma_step_by_four(yy / 100);
    }
}

/// Julian day numbers count days: the civil day after a date has the next
/// Julian day number, across month ends, year ends and leap days alike.
pub proof fn lemma_julian_day_number_counts_days(year: int, month: int, day: int)
    requires
        1 <= month <= 12,
        1 <= day <= days_in_month(year, month),
    ensures
        ({
            let n = next_day(year, month, day);
            julian_day_number(n.0, n.1, n.2) == julian_day_number(year, month, day) + 1
        }),
{
    let mm = if month <= 2 {
        month + 12
    } else {
        month
    };
    lemma_month_term(mm);
    if day < days_in_month(year, month) {
    } else if month == 2 {
        lemma_month_term(3);
        lemma_year_term(year);
        lemma_year_term(year - 1);
        lemma_step_by_four(year);
        lemma_correction_step(year);
    } else if month == 12 {
        lemma_month_term(13);
    } else {
        lemma_month_term(mm + 1);
    }
}

/// Within a year the first days of the months come in order, each at least
/// a month's length after the one before.
proof fn lemma_month_starts_in_order(year: int, m1: int, m2: int)
    requires
        1 <= m1 < m2 <= 12,
    ensures
        julian_day_number(year, m2, 1) - julian_day_number(year, m1, 1) >= days_in_month(
            year,
            m1,
        ),
    decreases m2 - m1,
{
    if m2 == m1 + 1 {
        lemma_julian_day_number_counts_days(year, m1, days_in_month(year, m1));
        lemma_julian_day_number_within_month(year, m1, 1, days_in_month(year, m1));
    } else {
        lemma_month_starts_in_order(year, m1, m2 - 1);
        lemma_julian_day_number_counts_days(year, m2 - 1, days_in_month(year, m2 - 1));
        lemma_julian_day_number_within_month(year, m2 - 1, 1, days_in_month(year, m2 - 1));
    }
}

/// The first day of a later year lies at least 364 days for each year of
/// difference after the first day of an earlier one.
proof fn lemma_year_starts_in_order(y1: int, y2: int)
    requires
        y1 <= y2,
    ensures
        julian_day_number(y2, 1, 1) - julian_day_number(y1, 1, 1) >= 364 * (y2 - y1),
{
    lemma_month_term(13);
    lemma_year_term(y1 - 1);
    lemma_year_term(y2 - 1);
    let k1 = y1 - 1;
    let k2 = y2 - 1;
    let c1 = k1 / 100;
    let c2 = k2 / 100;
    assert(c2 - c1 <= k2 - k1);
}

/// Julian day numbers keep the order of the calendar: of two dates, the
/// later one has the larger Julian day number.
pub proof fn lemma_julian_day_number_orders_dates(
    y1: int,
    m1: int,
    d1: int,
    y2: int,
    m2: int,
    d2: int,
)
    requires
        1 <= m1 <= 12,
        1 <= d1 <= days_in_month(y1, m1),
        1 <= m2 <= 12,
        1 <= d2 <= days_in_month(y2, m2),
        y1 < y2 || (y1 == y2 && (m1 < m2 || (m1 == m2 && d1 < d2))),
    ensures
        julian_day_number(y1, m1, d1) < julian_day_number(y2, m2, d2),
{
    lemma_julian_day_number_within_month(y1, m1, 1, d1);
    lemma_julian_day_number_within_month(y2, m2, 1, d2);
    if y1 == y2 {
        if m1 < m2 {
            lemma_month_starts_in_order(y1, m1, m2);
        }
    } else {
        // the date of the earlier year lies before the next new year
        if m1 < 12 {
            lemma_month_starts_in_order(y1, m1, 12);
        }
        lemma_julian_day_number_within_month(y1, 12, 1, 31);
        lemma_julian_day_number_counts_days(y1, 12, 31);
        // that new year lies at or before the new year of the later date
        lemma_year_starts_in_order(y1 + 1, y2);
        // which lies at or before the later date
        if m2 > 1 {
            lemma_month_starts_in_order(y2, 1, m2);
        }
    }
}

/// No two dates share a Julian day number.
pub proof fn lemma_julian_day_number_names_one_date(
    y1: int,
    m1: int,
    d1: int,
    y2: int,
    m2: int,
    d2: int,
)
    requires
        1 <= m1 <= 12,
        1 <= d1 <= days_in_month(y1, m1),
        1 <= m2 <= 12,
        1 <= d2 <= days_in_month(y2, m2),
        julian_day_number(y1, m1, d1) == julian_day_number(y2, m2, d2),
    ensures
        y1 == y2 && m1 == m2 && d1 == d2,
{
    if y1 < y2 || (y1 == y2 && (m1 < m2 || (m1 == m2 && d1 < d2))) {
        lemma_julian_day_number_orders_dates(y1, m1, d1, y2, m2, d2);
    } else if y2 < y1 || (y1 == y2 && (m2 < m1 || (m1 == m2 && d2 < d1))) {
        lemma_julian_day_number_orders_dates(y2, m2, d2, y1, m1, d1);
    }
}

/// No two instants share a timestamp: seconds since the UNIX epoch and
/// nanoseconds past the second name at most one instant.
pub proof fn lemma_timestamp_names_one_instant(a: UtcDateTime, b: UtcDateTime)
    requires
        a.is_valid(),
        b.is_valid(),
        a.spec_timestamp() == b.spec_timestamp(),
        a.spec_nanosecond() == b.spec_nanosecond(),
    ensures
        a == b,
{
    let ja = julian_day_number(a.spec_year(), a.spec_month(), a.spec_day());
    let jb = julian_day_number(b.spec_year(), b.spec_month(), b.spec_day());
    let sa = second_of_day(a.spec_hour(), a.spec_minute(), a.spec_second());
    let sb = second_of_day(b.spec_hour(), b.spec_minute(), b.spec_second());
    // the seconds of the day are less than a day apart, so the days agree
    assert(86400 * (ja - jb) == sb - sa);
    assert(ja == jb);
    lemma_julian_day_number_names_one_date(
        a.spec_year(),
        a.spec_month(),
        a.spec_day(),
        b.spec_year(),
        b.spec_month(),
        b.spec_day(),
    );
}

/// The distance from J2000.0 grows with time: of two instants, the one with
/// the later date, or with the later time on the same date, is further from
/// the epoch, or less far before it.
pub proof fn lemma_seconds_since_j2000_grow(
    y1: int,
    m1: int,
    d1: int,
    t1: (int, int, int),
    y2: int,
    m2: int,
    d2: int,
    t2: (int, int, int),
)
    requires
        valid_civil_fields(y1, m1, d1, t1.0, t1.1, t1.2, 0),
        valid_civil_fields(y2, m2, d2, t2.0, t2.1, t2.2, 0),
        y1 < y2 || (y1 == y2 && (m1 < m2 || (m1 == m2 && d1 < d2))) || (y1 == y2 && m1 == m2 && d1
            == d2 && second_of_day(t1.0, t1.1, t1.2) < second_of_day(t2.0, t2.1, t2.2)),
    ensures
        seconds_since_j2000(y1, m1, d1, t1.0, t1.1, t1.2) < seconds_since_j2000(
            y2,
            m2,
            d2,
            t2.0,
            t2.1,
            t2.2,
        ),
{
    if y1 < y2 || (y1 == y2 && (m1 < m2 || (m1 == m2 && d1 < d2))) {
        lemma_julian_day_number_orders_dates(y1, m1, d1, y2, m2, d2);
    }
}

/// One second later the distance from J2000.0 is one second longer: the
/// Julian date advances at a steady rate of one day per 86400 seconds.
pub proof fn lemma_seconds_since_j2000_steady(
    year: int,
    month: int,
    day: int,
    hour: int,
    minute: int,
    second: int,
)
    requires
        valid_civil_fields(year, month, day, hour, minute, second, 0),
    ensures
        ({
            let n = next_second(year, month, day, hour, minute, second);
            seconds_since_j2000(n.0, n.1, n.2, n.3, n.4, n.5) == seconds_since_j2000(
                year,
                month,
                day,
                hour,
                minute,
                second,
            ) + 1
        }),
{
    lemma_julian_day_number_counts_days(year, month, day);
}

/// Julian day numbers grow with the calendar: a later day of the same month
/// has a larger Julian day number by the difference of the days.
pub proof fn lemma_julian_day_number_within_month(year: int, month: int, d1: int, d2: int)
    ensures
        julian_day_number(year, month, d2) - julian_day_number(year, month, d1) == d2 - d1,
{
}

} // verus!
