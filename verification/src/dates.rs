//! Calendar dates as plain fields, with Gregorian validity.
//!
//! A due date travels through this layer as data only; nothing here computes
//! with time.  Holding the date as year, month and day keeps the value open
//! to the contracts, and validity (February 29 only in leap years, and so
//! on) is checked on construction.

use vstd::prelude::*;

verus! {

/// A calendar date.  A well-formed value satisfies [`Date::wf`].
#[derive(Clone, Copy, Debug, PartialEq, Eq, Structural)]
pub struct Date {
    pub year: i32,
    pub month: u8,
    pub day: u8,
}

/// The Gregorian leap-year rule.  Divisibility does not depend on sign, so
/// the rule is stated on the year's absolute value.
pub open spec fn is_leap_year(y: int) -> bool {
    let a = if y >= 0 {
        y
    } else {
        -y
    };
    (a % 4 == 0 && a % 100 != 0) || a % 400 == 0
}

/// How many days the given month of the given year has.
pub open spec fn days_in_month(y: int, m: int) -> int {
    if m == 2 {
        if is_leap_year(y) {
            29
        } else {
            28
        }
    } else if m == 4 || m == 6 || m == 9 || m == 11 {
        30
    } else {
        31
    }
}

/// Whether `year` is a leap year.
pub fn leap_year(year: i32) -> (r: bool)
    ensures
        r == is_leap_year(year as int),
{
    let a: i64 = if year >= 0 {
        year as i64
    } else {
        -(year as i64)
    };
    (a % 4 == 0 && a % 100 != 0) || a % 400 == 0
}

/// How many days the given month has, for months 1 through 12.
pub fn month_length(year: i32, month: u8) -> (r: u8)
    requires
        1 <= month <= 12,
    ensures
        r as int == days_in_month(year as int, month as int),
{
    if month == 2 {
        if leap_year(year) {
            29
        } else {
            28
        }
    } else if month == 4 || month == 6 || month == 9 || month == 11 {
        30
    } else {
        31
    }
}

impl Date {
    /// The month names a real month and the day exists in that month.
    pub open spec fn wf(&self) -> bool {
        1 <= self.month <= 12 && 1 <= self.day <= days_in_month(
            self.year as int,
            self.month as int,
        )
    }

    /// Builds a date when the fields name a real calendar day, and nothing
    /// otherwise.
    pub fn new(year: i32, month: u8, day: u8) -> (r: Option<Date>)
        ensures
            r is Some <==> (Date { year, month, day }).wf(),
            r matches Some(d) ==> d == (Date { year, month, day }),
    {
        if month < 1 || month > 12 {
            return None;
        }
        let dim = month_length(year, month);
        if day < 1 || day > dim {
            return None;
        }
        Some(Date { year, month, day })
    }
}

} // verus!
