//! Calendar dates as plain year/month/day values, with validity rules
//! (month ranges, month lengths, leap years) and the digit sequences used
//! when a date is printed as `YYYY-MM-DD`.

use vstd::prelude::*;

verus! {

/// The logical date of one statement, as extracted from its source.
/// Valid values satisfy [`StatementDate::valid`].
#[derive(Clone, Copy, Debug, PartialEq, Eq, Structural)]
pub struct StatementDate {
    pub year: u16,
    pub month: u8,
    pub day: u8,
}

/// A leap year: divisible by 4, except centuries not divisible by 400.
pub open spec fn spec_is_leap_year(y: int) -> bool {
    y % 4 == 0 && (y % 100 != 0 || y % 400 == 0)
}

/// Number of days in the given month of the given year; 0 outside 1..=12.
pub open spec fn spec_days_in_month(y: int, m: int) -> int {
    if m == 1 || m == 3 || m == 5 || m == 7 || m == 8 || m == 10 || m == 12 {
        31
    } else if m == 4 || m == 6 || m == 9 || m == 11 {
        30
    } else if m == 2 {
        if spec_is_leap_year(y) {
            29
        } else {
            28
        }
    } else {
        0
    }
}

/// A well-formed calendar date within the four-digit-year range.
pub open spec fn spec_valid_date(y: int, m: int, d: int) -> bool {
    &&& 0 <= y <= 9999
    &&& 1 <= m <= 12
    &&& 1 <= d <= spec_days_in_month(y, m)
}

impl StatementDate {
    /// Well-formedness: every constructor of this library only ever
    /// produces valid dates.
    pub open spec fn valid(self) -> bool {
        spec_valid_date(self.year as int, self.month as int, self.day as int)
    }
}

pub fn is_leap_year(y: u16) -> (r: bool)
    ensures
        r == spec_is_leap_year(y as int),
{
    y % 4 == 0 && (y % 100 != 0 || y % 400 == 0)
}

pub fn days_in_month(y: u16, m: u8) -> (r: u8)
    ensures
        r as int == spec_days_in_month(y as int, m as int),
{
    if m == 1 || m == 3 || m == 5 || m == 7 || m == 8 || m == 10 || m == 12 {
        31
    } else if m == 4 || m == 6 || m == 9 || m == 11 {
        30
    } else if m == 2 {
        if is_leap_year(y) {
            29
        } else {
            28
        }
    } else {
        0
    }
}

/// Whether year/month/day form a well-formed calendar date.
pub fn is_valid_date(y: u16, m: u8, d: u8) -> (r: bool)
    ensures
        r == spec_valid_date(y as int, m as int, d as int),
{
    y <= 9999 && 1 <= m && m <= 12 && 1 <= d && d <= days_in_month(y, m)
}

} // verus!
