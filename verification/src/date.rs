//! Calendar dates for invoices, kept as plain year/month/day fields with the
//! Gregorian validity rule as the type's invariant.

use vstd::prelude::*;

verus! {

/// The largest year a `Date` can hold.
pub const MAX_YEAR: i32 = 9999;

/// True for years with a 29-day February under the Gregorian rule.
pub open spec fn is_leap_year(y: int) -> bool {
    (y % 4 == 0 && y % 100 != 0) || y % 400 == 0
}

/// Number of days in the given month of the given year.
pub open spec fn days_in_month(y: int, m: int) -> int {
    if m == 2 {
        if is_leap_year(y) {
            29
        } else {
            28
        }
    } else if m == 4 || m == 6 || m == 9 || m == 11 {
        30
    } else {
        31
    }
}

/// A year/month/day triple denotes a date this library accepts: a Gregorian
/// calendar date between year 1 and `MAX_YEAR`.
pub open spec fn valid_ymd(y: int, m: int, d: int) -> bool {
    &&& 1 <= y <= MAX_YEAR as int
    &&& 1 <= m <= 12
    &&& 1 <= d <= days_in_month(y, m)
}

/// A calendar date. Constructed only through `from_ymd`, so a `Date` always
/// satisfies `wf`.
#[derive(Clone, Copy, PartialEq, Eq, Structural, Debug)]
pub struct Date {
    pub year: i32,
    pub month: u8,
    pub day: u8,
}

impl Date {
    /// The invariant every constructed `Date` satisfies.
    pub open spec fn wf(self) -> bool {
        valid_ymd(self.year as int, self.month as int, self.day as int)
    }

    /// Builds a date from its parts, or returns `None` exactly when the parts
    /// do not form a valid calendar date.
    pub fn from_ymd(year: i32, month: u8, day: u8) -> (r: Option<Date>)
        ensures
            r is Some <==> valid_ymd(year as int, month as int, day as int),
            r is Some ==> r->Some_0 == (Date { year, month, day }),
            r is Some ==> r->Some_0.wf(),
    {
        if year < 1 || year > MAX_YEAR {
            return None;
        }
        if month < 1 || month > 12 {
            return None;
        }
        if day < 1 || day > days_in_month_exec(year, month) {
            return None;
        }
        Some(Date { year, month, day })
    }
}

/// Executable mirror of `days_in_month` for in-range years and months.
fn days_in_month_exec(year: i32, month: u8) -> (r: u8)
    requires
        1 <= year as int <= MAX_YEAR as int,
        1 <= month as int <= 12,
    ensures
        r as int == days_in_month(year as int, month as int),
{
    if month == 2 {
        if (year % 4 == 0 && year % 100 != 0) || year % 400 == 0 {
            29
        } else {
            28
        }
    } else if month == 4 || month == 6 || month == 9 || month == 11 {
        30
    } else {
        31
    }
}

} // verus!
