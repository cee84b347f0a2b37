//! A calendar timestamp with UTC semantics, and the date validity rules used
//! when resolving publication dates.
//!
//! The store and the fetchers exchange dates as plain calendar fields; what
//! only an external time library can do (reading an RFC 3339 string) sits
//! behind one trusted wrapper.

use vstd::prelude::*;

use chrono::{Datelike, Timelike};

verus! {

/// Smallest year a timestamp may carry (the range the backing time library
/// can represent).
pub const MIN_YEAR: i32 = -262143;

/// Largest year a timestamp may carry.
pub const MAX_YEAR: i32 = 262142;

/// `y` is a leap year of the proleptic Gregorian calendar.
pub open spec fn is_leap_year(y: int) -> bool {
    (y % 4 == 0 && y % 100 != 0) || y % 400 == 0
}

/// Days of month `m` in year `y`.
pub open spec fn days_in_month(y: int, m: int) -> int {
    if m == 2 {
        if is_leap_year(y) {
            29
        } else {
            28
        }
    } else if m == 4 || m == 6 || m == 9 || m == 11 {
        30
    } else {
        31
    }
}

/// `(y, m, d)` is a calendar date the library accepts: a valid proleptic
/// Gregorian date whose year the backing time library can represent.
pub open spec fn valid_ymd(y: int, m: int, d: int) -> bool {
    MIN_YEAR <= y <= MAX_YEAR && 1 <= m <= 12 && 1 <= d <= days_in_month(y, m)
}

/// A point in time with UTC semantics, held as plain calendar fields.
#[derive(Clone, Copy, Debug, PartialEq, Eq, Structural)]
pub struct Timestamp {
    /// Proleptic Gregorian year (0 is 1 BCE).
    pub year: i32,
    /// Month, 1 to 12.
    pub month: u8,
    /// Day of month, 1-based.
    pub day: u8,
    /// Hour, 0 to 23.
    pub hour: u8,
    /// Minute, 0 to 59.
    pub minute: u8,
    /// Second, 0 to 59.
    pub second: u8,
}

impl Timestamp {
    /// The timestamp denotes a real UTC instant.
    pub open spec fn wf(self) -> bool {
        valid_ymd(self.year as int, self.month as int, self.day as int) && self.hour < 24
            && self.minute < 60 && self.second < 60
    }

    /// Midnight at the start of the given day, when `(y, m, d)` is a valid
    /// date; `None` otherwise.
    pub fn from_ymd(y: i32, m: i32, d: i32) -> (r: Option<Timestamp>)
        ensures
            r is Some <==> valid_ymd(y as int, m as int, d as int),
            r matches Some(t) ==> t == (Timestamp {
                year: y,
                month: m as u8,
                day: d as u8,
                hour: 0,
                minute: 0,
                second: 0,
            }) && t.wf(),
    {
        if y < MIN_YEAR || y > MAX_YEAR || m < 1 || m > 12 || d < 1 {
            return None;
        }
        let dim: i32 = days_in_month_exec(y, m);
        if d > dim {
            return None;
        }
        Some(
            Timestamp {
                year: y,
                month: m as u8,
                day: d as u8,
                hour: 0,
                minute: 0,
                second: 0,
            },
        )
    }
}

/// Days of month `m` in year `y`.
pub fn days_in_month_exec(y: i32, m: i32) -> (r: i32)
    requires
        1 <= m <= 12,
    ensures
        r as int == days_in_month(y as int, m as int),
{
    if m == 2 {
        if (y % 4 == 0 && y % 100 != 0) || y % 400 == 0 {
            29
        } else {
            28
        }
    } else if m == 4 || m == 6 || m == 9 || m == 11 {
        30
    } else {
        31
    }
}

/// `t` carries exactly the six calendar fields of `q`, in the order year,
/// month, day, hour, minute, second.
pub open spec fn ts_has_parts(t: Timestamp, q: Seq<int>) -> bool {
    q.len() == 6 && t.year as int == q[0] && t.month as int == q[1] && t.day as int == q[2]
        && t.hour as int == q[3] && t.minute as int == q[4] && t.second as int == q[5]
}

/// The UTC calendar fields denoted by an RFC 3339 timestamp string: six
/// entries (year, month, day, hour, minute, second) when the string is
/// well-formed, and the empty sequence otherwise.
pub uninterp spec fn rfc3339_utc_parts(s: Seq<char>) -> Seq<int>;

/// Relies on chrono's `DateTime::parse_from_rfc3339` and `with_timezone`:
/// whether a string is a well-formed RFC 3339 timestamp, and the UTC calendar
/// fields it denotes, are functions of the characters alone, and a parsed
/// timestamp always carries a valid calendar date with in-range time fields.
#[verifier::external_body]
pub fn parse_rfc3339_utc(s: &str) -> (r: Option<Timestamp>)
    ensures
        r is Some <==> rfc3339_utc_parts(s@).len() == 6,
        r matches Some(t) ==> ts_has_parts(t, rfc3339_utc_parts(s@)) && t.wf(),
{
    match chrono::DateTime::parse_from_rfc3339(s) {
        Ok(dt) => {
            let u = dt.with_timezone(&chrono::Utc);
            Some(Timestamp {
                year: u.year(),
                month: u.month() as u8,
                day: u.day() as u8,
                hour: u.hour() as u8,
                minute: u.minute() as u8,
                second: u.second() as u8,
            })
        },
        Err(_) => None,
    }
}

} // verus!
