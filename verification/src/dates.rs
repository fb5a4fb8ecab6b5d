//! Calendar dates as plain values.
//!
//! The backing store and the allocator both speak of calendar days. The
//! library holds a day as year, month and day numbers with the usual
//! Gregorian validity rules, so that every function reading a date can be
//! verified against them.

use vstd::prelude::*;
use chrono::Datelike;
use crate::text::{spec_is_ascii_digit, spec_digits_value};

verus! {

/// A calendar date in the proleptic Gregorian calendar.
#[derive(Clone, Copy, PartialEq, Eq, Structural, Debug)]
pub struct Date {
    pub year: i32,
    pub month: u8,
    pub day: u8,
}

/// Whether `y` is a leap year under the Gregorian rules.
pub open spec fn spec_is_leap_year(y: int) -> bool {
    y % 4 == 0 && (y % 100 != 0 || y % 400 == 0)
}

/// The number of days of month `m` (1 to 12) in year `y`; 0 for any other `m`.
pub open spec fn spec_days_in_month(y: int, m: int) -> int {
    if m == 1 || m == 3 || m == 5 || m == 7 || m == 8 || m == 10 || m == 12 {
        31
    } else if m == 4 || m == 6 || m == 9 || m == 11 {
        30
    } else if m == 2 {
        if spec_is_leap_year(y) {
            29
        } else {
            28
        }
    } else {
        0
    }
}

impl Date {
    /// The year is in the four-digit range the store's date format carries,
    /// and the month and day numbers name an existing day of the year.
    pub open spec fn well_formed(self) -> bool {
        &&& 0 <= self.year <= 9999
        &&& 1 <= self.month <= 12
        &&& 1 <= self.day <= spec_days_in_month(self.year as int, self.month as int)
    }

    /// Builds a date after checking the calendar rules.
    pub fn new(year: i32, month: u8, day: u8) -> (r: Option<Date>)
        ensures
            r is Some <==> (Date { year, month, day }).well_formed(),
            r matches Some(d) ==> d == (Date { year, month, day }),
    {
        if 0 <= year && year <= 9999 && 1 <= month && month <= 12 && 1 <= day
            && day <= days_in_month(year, month) {
            Some(Date { year, month, day })
        } else {
            None
        }
    }
}

/// `i` holds one of the date format's digits: every position of
/// "year-month-day" except the two dashes.
pub open spec fn spec_date_digit_position(i: int) -> bool {
    0 <= i < 10 && i != 4 && i != 7
}

/// `s` has the store's date shape: four digits, a dash, two digits, a dash,
/// two digits, and nothing else.
pub open spec fn spec_is_canonical_date(s: Seq<char>) -> bool {
    &&& s.len() == 10
    &&& s[4] == '-'
    &&& s[7] == '-'
    &&& forall|i: int| spec_date_digit_position(i) ==> spec_is_ascii_digit(#[trigger] s[i])
}

/// The date a canonical date string names, read digit by digit.
pub open spec fn spec_canonical_date_value(s: Seq<char>) -> Date {
    Date {
        year: spec_digits_value(s.subrange(0, 4)) as i32,
        month: spec_digits_value(s.subrange(5, 7)) as u8,
        day: spec_digits_value(s.subrange(8, 10)) as u8,
    }
}

/// Decides the canonical date shape.
pub fn is_canonical_date_str(s: &str) -> (r: bool)
    ensures
        r == spec_is_canonical_date(s@),
{
    if !s.is_ascii() {
        assert(!spec_is_canonical_date(s@)) by {
            if spec_is_canonical_date(s@) {
                assert forall|j: int| 0 <= j < s@.len() implies '\0' <= #[trigger] s@[j]
                    && s@[j] <= '\u{7f}' by {
                    if j == 4 || j == 7 {
                        assert(s@[j] == '-');
                    } else {
                        assert(spec_is_ascii_digit(s@[j]));
                    }
                }
                assert(vstd::utf8::is_ascii_chars(s@));
            }
        }
        return false;
    }
    let b = s.as_bytes();
    let n = b.len();
    proof {
        vstd::string::is_ascii_spec_bytes(s);
    }
    if n != 10 {
        return false;
    }
    let mut i: usize = 0;
    while i < 10
        invariant
            0 <= i <= 10,
            s@.len() == 10,
            s@[4] == '-' || i <= 4,
            s@[7] == '-' || i <= 7,
            forall|k: int| spec_date_digit_position(k) && k < i ==> spec_is_ascii_digit(
                #[trigger] s@[k],
            ),
        decreases 10 - i,
    {
        let c = s.get_char(i);
        if i == 4 || i == 7 {
            if c != '-' {
                return false;
            }
        } else {
            let code = c as u32;
            if code < 48 || code > 57 {
                assert(!spec_is_ascii_digit(s@[i as int]));
                return false;
            }
        }
        i += 1;
    }
    true
}

/// Relies on `chrono::NaiveDate::parse_from_str` with the "%Y-%m-%d"
/// format: a canonical "year-month-day" string naming a real calendar day
/// parses to exactly that day, and one naming no real day is rejected.
#[verifier::external_body]
pub(crate) fn parse_date_ymd(s: &str) -> (r: Option<Date>)
    ensures
        spec_is_canonical_date(s@) && spec_canonical_date_value(s@).well_formed() ==> r == Some(
            spec_canonical_date_value(s@),
        ),
        spec_is_canonical_date(s@) && !spec_canonical_date_value(s@).well_formed() ==> r is None,
{
    match chrono::NaiveDate::parse_from_str(s, "%Y-%m-%d") {
        Ok(d) => Some(Date { year: d.year(), month: d.month() as u8, day: d.day() as u8 }),
        Err(_) => None,
    }
}

/// Parses a date in the store's "year-month-day" format. Returns the named
/// day exactly when the string has the canonical shape and the day exists
/// in the calendar.
pub fn parse_date(s: &str) -> (r: Option<Date>)
    ensures
        r is Some <==> spec_is_canonical_date(s@) && spec_canonical_date_value(s@).well_formed(),
        r matches Some(d) ==> d == spec_canonical_date_value(s@),
{
    if !is_canonical_date_str(s) {
        return None;
    }
    parse_date_ymd(s)
}

/// Executable counterpart of `spec_is_leap_year`.
pub fn is_leap_year(y: i32) -> (r: bool)
    requires
        0 <= y,
    ensures
        r == spec_is_leap_year(y as int),
{
    y % 4 == 0 && (y % 100 != 0 || y % 400 == 0)
}

/// Executable counterpart of `spec_days_in_month`.
pub fn days_in_month(y: i32, m: u8) -> (r: u8)
    requires
        0 <= y,
    ensures
        r as int == spec_days_in_month(y as int, m as int),
{
    if m == 1 || m == 3 || m == 5 || m == 7 || m == 8 || m == 10 || m == 12 {
        31
    } else if m == 4 || m == 6 || m == 9 || m == 11 {
        30
    } else if m == 2 {
        if is_leap_year(y) {
            29
        } else {
            28
        }
    } else {
        0
    }
}

} // verus!
