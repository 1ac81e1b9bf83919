//! Parsing of `YYYY-MM-DD HH:MM:SS` timestamps and instant arithmetic.
//!
//! A timestamp is modelled as its six calendar fields; an instant is the
//! number of non-leap seconds since 1970-01-01 00:00:00 UTC. The parser and
//! the elapsed-minutes computation are verified; only the conversion of
//! calendar fields to an instant is delegated to chrono.

use crate::errors::EvalError;
use vstd::prelude::*;
use vstd::string::StrSliceExecFns;

verus! {

/// A calendar date and time of day, read from the fixed timestamp format.
///
/// The fields are plain numbers; `valid` says whether they name a real UTC
/// date and time (month and day in range for the year, time of day in range).
#[derive(Clone, Copy, Debug, PartialEq, Eq, Structural)]
pub struct Timestamp {
    /// Four-digit year.
    pub year: u32,
    /// Month of the year, 1 to 12.
    pub month: u32,
    /// Day of the month, 1-based.
    pub day: u32,
    /// Hour of the day, 0 to 23.
    pub hour: u32,
    /// Minute of the hour, 0 to 59.
    pub minute: u32,
    /// Second of the minute, 0 to 59.
    pub second: u32,
}

/// Gregorian leap-year rule.
pub open spec fn is_leap_year(y: int) -> bool {
    (y % 4 == 0 && y % 100 != 0) || y % 400 == 0
}

/// Number of days in a month of a given year.
pub open spec fn days_in_month(y: int, m: int) -> int {
    if m == 2 {
        if is_leap_year(y) {
            29
        } else {
            28
        }
    } else if m == 4 || m == 6 || m == 9 || m == 11 {
        30
    } else {
        31
    }
}

impl Timestamp {
    /// The fields name a real calendar date and time of day.
    pub open spec fn valid(self) -> bool {
        &&& self.year <= 9999
        &&& 1 <= self.month <= 12
        &&& 1 <= self.day <= days_in_month(self.year as int, self.month as int)
        &&& self.hour < 24
        &&& self.minute < 60
        &&& self.second < 60
    }
}

/// The character is a decimal digit.
pub open spec fn is_digit(c: char) -> bool {
    48 <= c as u32 <= 57
}

/// Value of a decimal digit character.
pub open spec fn digit_val(c: char) -> int {
    c as u32 - 48
}

/// The character sequence has the exact shape `YYYY-MM-DD HH:MM:SS`.
pub open spec fn well_formed(s: Seq<char>) -> bool {
    &&& s.len() == 19
    &&& is_digit(s[0]) && is_digit(s[1]) && is_digit(s[2]) && is_digit(s[3])
    &&& s[4] == '-'
    &&& is_digit(s[5]) && is_digit(s[6])
    &&& s[7] == '-'
    &&& is_digit(s[8]) && is_digit(s[9])
    &&& s[10] == ' '
    &&& is_digit(s[11]) && is_digit(s[12])
    &&& s[13] == ':'
    &&& is_digit(s[14]) && is_digit(s[15])
    &&& s[16] == ':'
    &&& is_digit(s[17]) && is_digit(s[18])
}

/// The six fields spelled by a well-formed timestamp sequence.
pub open spec fn fields_of(s: Seq<char>) -> Timestamp {
    Timestamp {
        year: (digit_val(s[0]) * 1000 + digit_val(s[1]) * 100 + digit_val(s[2]) * 10 + digit_val(
            s[3],
        )) as u32,
        month: (digit_val(s[5]) * 10 + digit_val(s[6])) as u32,
        day: (digit_val(s[8]) * 10 + digit_val(s[9])) as u32,
        hour: (digit_val(s[11]) * 10 + digit_val(s[12])) as u32,
        minute: (digit_val(s[14]) * 10 + digit_val(s[15])) as u32,
        second: (digit_val(s[17]) * 10 + digit_val(s[18])) as u32,
    }
}

/// What parsing a timestamp string yields: the spelled fields when the string
/// has the fixed shape and names a real date and time, nothing otherwise.
pub open spec fn parse_spec(s: Seq<char>) -> Option<Timestamp> {
    if well_formed(s) && fields_of(s).valid() {
        Some(fields_of(s))
    } else {
        None
    }
}

/// Read the digit at a position of the string, if it is one.
fn digit_at(s: &str, i: usize) -> (r: Option<u32>)
    requires
        i < s@.len(),
    ensures
        match r {
            Some(v) => is_digit(s@[i as int]) && v == digit_val(s@[i as int]),
            None => !is_digit(s@[i as int]),
        },
{
    let c: char = s.get_char(i);
    let u: u32 = c as u32;
    if 48 <= u && u <= 57 {
        Some(u - 48)
    } else {
        None
    }
}

/// Number of days in a month of a given year.
pub fn days_in_month_exec(y: u32, m: u32) -> (r: u32)
    ensures
        r == days_in_month(y as int, m as int),
{
    if m == 2 {
        if (y % 4 == 0 && y % 100 != 0) || y % 400 == 0 {
            29
        } else {
            28
        }
    } else if m == 4 || m == 6 || m == 9 || m == 11 {
        30
    } else {
        31
    }
}

impl Timestamp {
    /// Decide whether the fields name a real calendar date and time of day.
    pub fn is_valid(&self) -> (r: bool)
        ensures
            r == self.valid(),
    {
        self.year <= 9999 && 1 <= self.month && self.month <= 12 && 1 <= self.day && self.day
            <= days_in_month_exec(self.year, self.month) && self.hour < 24 && self.minute < 60
            && self.second < 60
    }
}

/// Parse a `YYYY-MM-DD HH:MM:SS` timestamp.
///
/// Succeeds exactly on strings of that shape that name a real calendar date
/// and time of day; every other input is an invalid timestamp.
pub fn parse_timestamp(s: &str) -> (r: Result<Timestamp, EvalError>)
    ensures
        match r {
            Ok(ts) => parse_spec(s@) == Some(ts) && ts.valid(),
            Err(e) => e == EvalError::InvalidTimestamp && parse_spec(s@) is None,
        },
{
    if s.unicode_len() != 19 {
        return Err(EvalError::InvalidTimestamp);
    }
    let d0 = match digit_at(s, 0) {
        Some(v) => v,
        None => return Err(EvalError::InvalidTimestamp),
    };
    let d1 = match digit_at(s, 1) {
        Some(v) => v,
        None => return Err(EvalError::InvalidTimestamp),
    };
    let d2 = match digit_at(s, 2) {
        Some(v) => v,
        None => return Err(EvalError::InvalidTimestamp),
    };
    let d3 = match digit_at(s, 3) {
        Some(v) => v,
        None => return Err(EvalError::InvalidTimestamp),
    };
    if s.get_char(4) != '-' {
        return Err(EvalError::InvalidTimestamp);
    }
    let m0 = match digit_at(s, 5) {
        Some(v) => v,
        None => return Err(EvalError::InvalidTimestamp),
    };
    let m1 = match digit_at(s, 6) {
        Some(v) => v,
        None => return Err(EvalError::InvalidTimestamp),
    };
    if s.get_char(7) != '-' {
        return Err(EvalError::InvalidTimestamp);
    }
    let a0 = match digit_at(s, 8) {
        Some(v) => v,
        None => return Err(EvalError::InvalidTimestamp),
    };
    let a1 = match digit_at(s, 9) {
        Some(v) => v,
        None => return Err(EvalError::InvalidTimestamp),
    };
    if s.get_char(10) != ' ' {
        return Err(EvalError::InvalidTimestamp);
    }
    let h0 = match digit_at(s, 11) {
        Some(v) => v,
        None => return Err(EvalError::InvalidTimestamp),
    };
    let h1 = match digit_at(s, 12) {
        Some(v) => v,
        None => return Err(EvalError::InvalidTimestamp),
    };
    if s.get_char(13) != ':' {
        return Err(EvalError::InvalidTimestamp);
    }
    let i0 = match digit_at(s, 14) {
        Some(v) => v,
        None => return Err(EvalError::InvalidTimestamp),
    };
    let i1 = match digit_at(s, 15) {
        Some(v) => v,
        None => return Err(EvalError::InvalidTimestamp),
    };
    if s.get_char(16) != ':' {
        return Err(EvalError::InvalidTimestamp);
    }
    let e0 = match digit_at(s, 17) {
        Some(v) => v,
        None => return Err(EvalError::InvalidTimestamp),
    };
    let e1 = match digit_at(s, 18) {
        Some(v) => v,
        None => return Err(EvalError::InvalidTimestamp),
    };
    let ts = Timestamp {
        year: d0 * 1000 + d1 * 100 + d2 * 10 + d3,
        month: m0 * 10 + m1,
        day: a0 * 10 + a1,
        hour: h0 * 10 + h1,
        minute: i0 * 10 + i1,
        second: e0 * 10 + e1,
    };
    proof {
        assert(well_formed(s@));
        assert(ts == fields_of(s@));
    }
    if ts.is_valid() {
        Ok(ts)
    } else {
        Err(EvalError::InvalidTimestamp)
    }
}

} // verus!
