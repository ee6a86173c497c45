//! Periods of time in words: a number and a unit, as in `30 min` or `2weeks`.

use vstd::prelude::*;
use vstd::string::*;
use crate::number::{bounded_number, parse_u64};
use crate::text::{concat, str_eq};

verus! {

/// A unit of time.
#[derive(Clone, Copy, Debug, PartialEq, Eq, Structural)]
pub enum TimeUnit {
    Second,
    Minute,
    Hour,
    Day,
    Week,
}

/// Why a period could not be read.
#[derive(Clone, Copy, Debug, PartialEq, Eq, Structural)]
pub enum PeriodError {
    /// The pattern for periods was not accepted.
    Pattern,
    /// The text holds no number that is followed by a word.
    InvalidFormat,
    /// The number is no decimal number of 64 bits.
    InvalidNumber,
    /// The word is no unit of time.
    UnsupportedUnit,
    /// The period is longer than can be counted in seconds.
    TooLong,
}

/// The pattern of a period: digits, blanks if any, letters.
pub open spec fn period_pattern() -> Seq<char> {
    "(\\d+)\\s*([a-zA-Z]+)"@
}

/// The unit that a word names, in lower case.
pub open spec fn unit_named(s: Seq<char>) -> Option<TimeUnit> {
    if s == "second"@ || s == "seconds"@ || s == "sec"@ || s == "secs"@ || s == "s"@ {
        Some(TimeUnit::Second)
    } else if s == "minute"@ || s == "minutes"@ || s == "min"@ || s == "mins"@ || s == "m"@ {
        Some(TimeUnit::Minute)
    } else if s == "hour"@ || s == "hours"@ || s == "h"@ {
        Some(TimeUnit::Hour)
    } else if s == "day"@ || s == "days"@ || s == "d"@ {
        Some(TimeUnit::Day)
    } else if s == "week"@ || s == "weeks"@ || s == "w"@ {
        Some(TimeUnit::Week)
    } else {
        None
    }
}

/// How many seconds a unit has.
pub open spec fn unit_seconds(unit: TimeUnit) -> nat {
    match unit {
        TimeUnit::Second => 1,
        TimeUnit::Minute => 60,
        TimeUnit::Hour => 3600,
        TimeUnit::Day => 86400,
        TimeUnit::Week => 604800,
    }
}

impl TimeUnit {
    /// Reads a unit from its name in lower case. A word that names none
    /// comes back in the error message.
    pub fn from_str(s: &str) -> (r: Result<TimeUnit, String>)
        ensures
            match r {
                Ok(unit) => unit_named(s@) == Some(unit),
                Err(message) => unit_named(s@) is None && message@ == "Unsupported time unit: "@
                    + s@,
            },
    {
        if str_eq(s, "second") || str_eq(s, "seconds") || str_eq(s, "sec") || str_eq(s, "secs")
            || str_eq(s, "s") {
            Ok(TimeUnit::Second)
        } else if str_eq(s, "minute") || str_eq(s, "minutes") || str_eq(s, "min") || str_eq(
            s,
            "mins",
        ) || str_eq(s, "m") {
            Ok(TimeUnit::Minute)
        } else if str_eq(s, "hour") || str_eq(s, "hours") || str_eq(s, "h") {
            Ok(TimeUnit::Hour)
        } else if str_eq(s, "day") || str_eq(s, "days") || str_eq(s, "d") {
            Ok(TimeUnit::Day)
        } else if str_eq(s, "week") || str_eq(s, "weeks") || str_eq(s, "w") {
            Ok(TimeUnit::Week)
        } else {
            Err(concat("Unsupported time unit: ", s))
        }
    }

    /// How many seconds the unit has.
    pub fn seconds(&self) -> (r: u64)
        ensures
            r == unit_seconds(*self),
    {
        match self {
            TimeUnit::Second => 1,
            TimeUnit::Minute => 60,
            TimeUnit::Hour => 3600,
            TimeUnit::Day => 86400,
            TimeUnit::Week => 604800,
        }
    }
}

impl std::str::FromStr for TimeUnit {
    type Err = String;

    /// Reads a unit from its name in lower case, as [`TimeUnit::from_str`] does.
    fn from_str(s: &str) -> (r: Result<TimeUnit, String>)
        ensures
            match r {
                Ok(unit) => unit_named(s@) == Some(unit),
                Err(message) => unit_named(s@) is None && message@ == "Unsupported time unit: "@
                    + s@,
            },
    {
        TimeUnit::from_str(s)
    }
}

/// What the leftmost match of a pattern in a text captures in its first
/// two groups; `None` where the pattern is refused, `Some(None)` where
/// nothing matches.
pub uninterp spec fn captured(pattern: Seq<char>, input: Seq<char>) -> Option<
    Option<(Seq<char>, Seq<char>)>,
>;

/// Calls `Regex::new` and `Regex::captures` of `regex`. Trusted: the
/// groups of the leftmost match depend on pattern and text alone. A group
/// that took no part in the match comes back empty.
#[verifier::external_body]
fn capture_two(pattern: &str, input: &str) -> (r: Option<Option<(String, String)>>)
    ensures
        r.deep_view() == captured(pattern@, input@),
{
    let re = regex::Regex::new(pattern).ok()?;
    Some(
        re.captures(input).map(
            |caps|
                (
                    caps.get(1).map_or(String::new(), |m| m.as_str().to_owned()),
                    caps.get(2).map_or(String::new(), |m| m.as_str().to_owned()),
                ),
        ),
    )
}

/// The lower-case form of a text, as the standard library gives it.
pub uninterp spec fn lowercased(s: Seq<char>) -> Seq<char>;

/// Calls `str::to_lowercase` of the standard library. Trusted: the result
/// depends on the text alone.
#[verifier::external_body]
fn to_lowercase(s: &str) -> (r: String)
    ensures
        r@ == lowercased(s@),
{
    s.to_lowercase()
}

/// The period that a number and a unit in lower case stand for, in seconds.
pub open spec fn period_of(value: Seq<char>, unit: Seq<char>) -> Result<u64, PeriodError> {
    match bounded_number(value, u64::MAX as nat) {
        None => Err(PeriodError::InvalidNumber),
        Some(n) => match unit_named(unit) {
            None => Err(PeriodError::UnsupportedUnit),
            Some(u) => if n * unit_seconds(u) > u64::MAX {
                Err(PeriodError::TooLong)
            } else {
                Ok((n * unit_seconds(u)) as u64)
            },
        },
    }
}

/// Computes the seconds of a period from its number and its unit in lower
/// case.
pub fn period_from_parts(value: &str, unit: &str) -> (r: Result<u64, PeriodError>)
    ensures
        r == period_of(value@, unit@),
{
    let number: u64 = match parse_u64(value) {
        Some(n) => n,
        None => {
            return Err(PeriodError::InvalidNumber);
        },
    };
    let time_unit = match TimeUnit::from_str(unit) {
        Ok(u) => u,
        Err(_) => {
            return Err(PeriodError::UnsupportedUnit);
        },
    };
    match number.checked_mul(time_unit.seconds()) {
        Some(secs) => Ok(secs),
        None => Err(PeriodError::TooLong),
    }
}

/// The period that a text stands for, given what the pattern captured in it.
pub open spec fn period_read(found: Option<Option<(Seq<char>, Seq<char>)>>) -> Result<
    u64,
    PeriodError,
> {
    match found {
        None => Err(PeriodError::Pattern),
        Some(None) => Err(PeriodError::InvalidFormat),
        Some(Some((value, unit))) => period_of(value, lowercased(unit)),
    }
}

/// Reads a period of time such as `45s`, `30 min` or `2 Weeks` and gives
/// its length in seconds.
pub fn parse_time_period(input: &str) -> (r: Result<u64, PeriodError>)
    ensures
        r == period_read(captured(period_pattern(), input@)),
{
    match capture_two("(\\d+)\\s*([a-zA-Z]+)", input) {
        None => Err(PeriodError::Pattern),
        Some(None) => Err(PeriodError::InvalidFormat),
        Some(Some((value, unit))) => {
            let lower = to_lowercase(unit.as_str());
            period_from_parts(value.as_str(), lower.as_str())
        },
    }
}

/// The message that goes with a [`PeriodError`] about the text `input`.
pub fn period_error_message(error: PeriodError, input: &str) -> (r: String)
    ensures
        r@ == match error {
            PeriodError::Pattern => "Invalid pattern for time periods"@,
            PeriodError::InvalidFormat => "Invalid time format: "@ + input@,
            PeriodError::InvalidNumber => "Invalid number in time period: "@ + input@,
            PeriodError::UnsupportedUnit => "Unsupported time unit: "@ + input@,
            PeriodError::TooLong => "Time period too long: "@ + input@,
        },
{
    match error {
        PeriodError::Pattern => "Invalid pattern for time periods".to_owned(),
        PeriodError::InvalidFormat => concat("Invalid time format: ", input),
        PeriodError::InvalidNumber => concat("Invalid number in time period: ", input),
        PeriodError::UnsupportedUnit => concat("Unsupported time unit: ", input),
        PeriodError::TooLong => concat("Time period too long: ", input),
    }
}

} // verus!
