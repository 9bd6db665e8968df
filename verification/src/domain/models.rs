//! Identifiers and the record that accompanies every computation.
use crate::astro::models::Tle;
use crate::astro::time::UtcDateTime;
use vstd::prelude::*;
use vstd::string::StringExecFns;

verus! {

/// Name of the propagation model that every computation reports.
pub open spec fn propagation_model_name() -> Seq<char> {
    "SGP4"@
}

/// The character of a decimal digit.
pub open spec fn digit_char(d: nat) -> char {
    if d == 0 {
        '0'
    } else if d == 1 {
        '1'
    } else if d == 2 {
        '2'
    } else if d == 3 {
        '3'
    } else if d == 4 {
        '4'
    } else if d == 5 {
        '5'
    } else if d == 6 {
        '6'
    } else if d == 7 {
        '7'
    } else if d == 8 {
        '8'
    } else {
        '9'
    }
}

/// The decimal numeral of `n`, without leading zeros.
pub open spec fn decimal_text(n: nat) -> Seq<char>
    decreases n,
{
    if n < 10 {
        seq![digit_char(n)]
    } else {
        decimal_text(n / 10).push(digit_char(n % 10))
    }
}

/// A satellite named by catalog number or by name.
#[derive(Debug, Clone)]
pub enum SatelliteIdentifier {
    NoradId(u32),
    Name(String),
}

/// What is reported beside every result.
#[derive(Debug, Clone)]
pub struct ComputationMetadata {
    pub propagation_model: String,
    pub computation_time: UtcDateTime,
    pub norad_id: u32,
    pub satellite_name: String,
    pub tle_epoch: UtcDateTime,
}

fn digit_text(d: u32) -> (r: &'static str)
    requires
        d < 10,
    ensures
        r@ == seq![digit_char(d as nat)],
{
    proof {
        reveal_strlit("0");
        reveal_strlit("1");
        reveal_strlit("2");
        reveal_strlit("3");
        reveal_strlit("4");
        reveal_strlit("5");
        reveal_strlit("6");
        reveal_strlit("7");
        reveal_strlit("8");
        reveal_strlit("9");
    }
    if d == 0 {
        "0"
    } else if d == 1 {
        "1"
    } else if d == 2 {
        "2"
    } else if d == 3 {
        "3"
    } else if d == 4 {
        "4"
    } else if d == 5 {
        "5"
    } else if d == 6 {
        "6"
    } else if d == 7 {
        "7"
    } else if d == 8 {
        "8"
    } else {
        "9"
    }
}

/// Appends the decimal numeral of `n` to `text`.
pub fn append_decimal(text: &mut String, n: u32)
    ensures
        final(text)@ == old(text)@ + decimal_text(n as nat),
    decreases n,
{
    if n >= 10 {
        append_decimal(text, n / 10);
    }
    text.append(digit_text(n % 10));
}

impl SatelliteIdentifier {
    /// How the identifier reads in messages.
    pub open spec fn spec_to_string(&self) -> Seq<char> {
        match self {
            SatelliteIdentifier::NoradId(id) => "NORAD ID "@ + decimal_text(*id as nat),
            SatelliteIdentifier::Name(name) => "Satellite '"@ + name@ + "'"@,
        }
    }

    /// How the identifier reads in messages: `NORAD ID 25544`, or
    /// `Satellite 'ISS'`.
    pub fn to_string(&self) -> (r: String)
        ensures
            r@ == self.spec_to_string(),
    {
        match self {
            SatelliteIdentifier::NoradId(id) => {
                let mut text = String::from_str("NORAD ID ");
                append_decimal(&mut text, *id);
                text
            },
            SatelliteIdentifier::Name(name) => {
                let mut text = String::from_str("Satellite '");
                text.append(name.as_str());
                text.append("'");
                text
            },
        }
    }
}

impl ComputationMetadata {
    /// The record of a computation at `datetime` on the element set `tle`.
    pub fn new(tle: Tle, datetime: UtcDateTime) -> (r: Self)
        ensures
            r.propagation_model@ == propagation_model_name(),
            r.computation_time == datetime,
            r.norad_id == tle.norad_id,
            r.satellite_name == tle.satellite_name,
            r.tle_epoch == tle.epoch,
    {
        ComputationMetadata {
            propagation_model: String::from_str("SGP4"),
            computation_time: datetime,
            norad_id: tle.norad_id,
            satellite_name: tle.satellite_name,
            tle_epoch: tle.epoch,
        }
    }
}

} // verus!
