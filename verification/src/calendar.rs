//! Proleptic Gregorian calendar arithmetic.
//!
//! Dates are modeled as (year, month, day) triples; `day_number` linearizes a
//! date into the count of days since the calendar origin (year 0, January 1).
//! The module proves that stepping one day forward or backward shifts the day
//! number by exactly one, and that the day number determines the date: the
//! facts the time-range encoder's round-trip law rests on.

use vstd::prelude::*;

verus! {

/// Whether year `y` is a leap year in the Gregorian rule.
pub open spec fn is_leap_year(y: int) -> bool {
    (y % 4 == 0 && y % 100 != 0) || y % 400 == 0
}

/// Number of days in year `y`.
pub open spec fn year_len(y: int) -> int {
    if is_leap_year(y) {
        366
    } else {
        365
    }
}

/// Number of days in month `m` of year `y` (months are 1-based).
pub open spec fn days_in_month(y: int, m: int) -> int {
    if m == 2 {
        if is_leap_year(y) {
            29
        } else {
            28
        }
    } else if m == 4 || m == 6 || m == 9 || m == 11 {
        30
    } else {
        31
    }
}

/// A calendar date this library works on: years 0 through 9999, so that both
/// timestamps of a day range stay within four-digit years after conversion.
pub open spec fn valid_date(y: int, m: int, d: int) -> bool {
    &&& 0 <= y <= 9999
    &&& 1 <= m <= 12
    &&& 1 <= d <= days_in_month(y, m)
}

/// Days in year `y` strictly before month `m`.
pub open spec fn days_before_month(y: int, m: int) -> int
    decreases m,
{
    if m <= 1 {
        0
    } else {
        days_before_month(y, m - 1) + days_in_month(y, m - 1)
    }
}

/// Days strictly before year `y`, counted from year 0.
pub open spec fn days_before_year(y: int) -> int
    decreases y,
{
    if y <= 0 {
        0
    } else {
        days_before_year(y - 1) + year_len(y - 1)
    }
}

/// The date's position on the time line, in days since year 0, January 1.
pub open spec fn day_number(y: int, m: int, d: int) -> int {
    days_before_year(y) + days_before_month(y, m) + d - 1
}

/// The date one day after `(y, m, d)`.
pub open spec fn next_date(y: int, m: int, d: int) -> (int, int, int) {
    if d < days_in_month(y, m) {
        (y, m, d + 1)
    } else if m < 12 {
        (y, m + 1, 1)
    } else {
        (y + 1, 1, 1)
    }
}

/// The date one day before `(y, m, d)`.
pub open spec fn prev_date(y: int, m: int, d: int) -> (int, int, int) {
    if d > 1 {
        (y, m, d - 1)
    } else if m > 1 {
        (y, m - 1, days_in_month(y, m - 1))
    } else {
        (y - 1, 12, 31)
    }
}

/// The months of a year sum to its length.
pub proof fn lemma_months_sum(y: int)
    ensures
        days_before_month(y, 13) == year_len(y),
{
    reveal_with_fuel(days_before_month, 13);
}

/// `days_before_month` accumulates month lengths, so it is monotonic.
pub proof fn lemma_days_before_month_mono(y: int, m1: int, m2: int)
    requires
        1 <= m1 <= m2 <= 13,
    ensures
        days_before_month(y, m1) <= days_before_month(y, m2),
    decreases m2 - m1,
{
    if m1 < m2 {
        lemma_days_before_month_mono(y, m1, m2 - 1);
    }
}

/// A valid date's day number lies within its year's span of days.
pub proof fn lemma_day_number_in_year(y: int, m: int, d: int)
    requires
        valid_date(y, m, d),
    ensures
        days_before_year(y) <= day_number(y, m, d),
        day_number(y, m, d) < days_before_year(y) + year_len(y),
        days_before_year(y + 1) == days_before_year(y) + year_len(y),
{
    lemma_days_before_month_mono(y, 1, m);
    assert(days_before_month(y, m + 1) == days_before_month(y, m) + days_in_month(y, m));
    lemma_days_before_month_mono(y, m + 1, 13);
    lemma_months_sum(y);
    assert(days_before_year(y + 1) == days_before_year(y) + year_len(y));
}

/// `days_before_year` grows by at least 365 days per year.
pub proof fn lemma_days_before_year_mono(y1: int, y2: int)
    requires
        0 <= y1 <= y2,
    ensures
        days_before_year(y1) + 365 * (y2 - y1) <= days_before_year(y2),
    decreases y2 - y1,
{
    if y1 < y2 {
        lemma_days_before_year_mono(y1, y2 - 1);
    }
}

/// The day number determines the date: no two valid dates share one.
pub proof fn lemma_day_number_injective(y1: int, m1: int, d1: int, y2: int, m2: int, d2: int)
    requires
        valid_date(y1, m1, d1),
        valid_date(y2, m2, d2),
        day_number(y1, m1, d1) == day_number(y2, m2, d2),
    ensures
        y1 == y2,
        m1 == m2,
        d1 == d2,
{
    lemma_day_number_in_year(y1, m1, d1);
    lemma_day_number_in_year(y2, m2, d2);
    if y1 < y2 {
        lemma_days_before_year_mono(y1 + 1, y2);
        assert(false);
    }
    if y2 < y1 {
        lemma_days_before_year_mono(y2 + 1, y1);
        assert(false);
    }
    if m1 < m2 {
        assert(days_before_month(y1, m1 + 1) == days_before_month(y1, m1) + days_in_month(
            y1,
            m1,
        ));
        lemma_days_before_month_mono(y1, m1 + 1, m2);
        assert(false);
    }
    if m2 < m1 {
        assert(days_before_month(y1, m2 + 1) == days_before_month(y1, m2) + days_in_month(
            y1,
            m2,
        ));
        lemma_days_before_month_mono(y1, m2 + 1, m1);
        assert(false);
    }
}

/// Stepping to the next date preserves validity and advances the day number
/// by one.
pub proof fn lemma_next_date(y: int, m: int, d: int)
    requires
        valid_date(y, m, d),
        !(y == 9999 && m == 12 && d == 31),
    ensures
        valid_date(next_date(y, m, d).0, next_date(y, m, d).1, next_date(y, m, d).2),
        day_number(next_date(y, m, d).0, next_date(y, m, d).1, next_date(y, m, d).2)
            == day_number(y, m, d) + 1,
{
    if d < days_in_month(y, m) {
    } else if m < 12 {
        assert(days_before_month(y, m + 1) == days_before_month(y, m) + days_in_month(y, m));
    } else {
        lemma_months_sum(y);
        assert(days_before_month(y, 13) == days_before_month(y, 12) + days_in_month(y, 12));
        assert(days_before_year(y + 1) == days_before_year(y) + year_len(y));
    }
}

/// Stepping to the previous date preserves validity and lowers the day number
/// by one.
pub proof fn lemma_prev_date(y: int, m: int, d: int)
    requires
        valid_date(y, m, d),
        !(y == 0 && m == 1 && d == 1),
    ensures
        valid_date(prev_date(y, m, d).0, prev_date(y, m, d).1, prev_date(y, m, d).2),
        day_number(prev_date(y, m, d).0, prev_date(y, m, d).1, prev_date(y, m, d).2)
            == day_number(y, m, d) - 1,
{
    if d > 1 {
    } else if m > 1 {
        assert(days_before_month(y, m) == days_before_month(y, m - 1) + days_in_month(y, m - 1));
    } else {
        lemma_months_sum(y - 1);
        assert(days_before_month(y - 1, 13) == days_before_month(y - 1, 12) + days_in_month(
            y - 1,
            12,
        ));
        assert(days_before_year(y) == days_before_year(y - 1) + year_len(y - 1));
    }
}

/// Whether year `y` is a leap year.
pub fn leap_year(y: u32) -> (r: bool)
    ensures
        r == is_leap_year(y as int),
{
    (y % 4 == 0 && y % 100 != 0) || y % 400 == 0
}

/// Number of days in month `m` of year `y`.
pub fn month_len(y: u32, m: u32) -> (r: u32)
    requires
        1 <= m <= 12,
    ensures
        r == days_in_month(y as int, m as int),
{
    if m == 2 {
        if leap_year(y) {
            29
        } else {
            28
        }
    } else if m == 4 || m == 6 || m == 9 || m == 11 {
        30
    } else {
        31
    }
}

/// The date one day after `(y, m, d)`.
pub fn next_day(y: u32, m: u32, d: u32) -> (r: (u32, u32, u32))
    requires
        valid_date(y as int, m as int, d as int),
        !(y == 9999 && m == 12 && d == 31),
    ensures
        valid_date(r.0 as int, r.1 as int, r.2 as int),
        day_number(r.0 as int, r.1 as int, r.2 as int) == day_number(y as int, m as int, d as int)
            + 1,
{
    proof {
        lemma_next_date(y as int, m as int, d as int);
    }
    let ml = month_len(y, m);
    if d < ml {
        (y, m, d + 1)
    } else if m < 12 {
        (y, m + 1, 1)
    } else {
        (y + 1, 1, 1)
    }
}

/// The date one day before `(y, m, d)`.
pub fn prev_day(y: u32, m: u32, d: u32) -> (r: (u32, u32, u32))
    requires
        valid_date(y as int, m as int, d as int),
        !(y == 0 && m == 1 && d == 1),
    ensures
        valid_date(r.0 as int, r.1 as int, r.2 as int),
        day_number(r.0 as int, r.1 as int, r.2 as int) == day_number(y as int, m as int, d as int)
            - 1,
{
    proof {
        lemma_prev_date(y as int, m as int, d as int);
    }
    if d > 1 {
        (y, m, d - 1)
    } else if m > 1 {
        (y, m - 1, month_len(y, m - 1))
    } else {
        (y - 1, 12, 31)
    }
}

} // verus!
