//! The proleptic Gregorian calendar as plain arithmetic on integers.
//!
//! Everything here is specification: day counts relative to 1970-01-01 and
//! the facts about them that the conversions rely on.

use vstd::prelude::*;

verus! {

/// Earliest year a calendar date may name.
pub const MIN_YEAR: i32 = -262_143;

/// Latest year a calendar date may name.
pub const MAX_YEAR: i32 = 262_142;

/// Seconds in a day; the calendar knows no leap seconds.
pub const SECONDS_PER_DAY: i128 = 86_400;

/// Whether `year` (astronomical numbering, so year 0 exists) has 366 days.
pub open spec fn is_leap_year(year: int) -> bool {
    year % 4 == 0 && (year % 100 != 0 || year % 400 == 0)
}

/// Number of days of `month` in `year`; months outside 1..=12 count as 31.
pub open spec fn days_in_month(year: int, month: int) -> int {
    if month == 2 {
        if is_leap_year(year) {
            29
        } else {
            28
        }
    } else if month == 4 || month == 6 || month == 9 || month == 11 {
        30
    } else {
        31
    }
}

/// Number of days of `year` that lie before the first day of `month`.
pub open spec fn days_before_month(year: int, month: int) -> int {
    let leap: int = if month > 2 && is_leap_year(year) {
        1
    } else {
        0
    };
    let common: int = if month <= 1 {
        0
    } else if month == 2 {
        31
    } else if month == 3 {
        59
    } else if month == 4 {
        90
    } else if month == 5 {
        120
    } else if month == 6 {
        151
    } else if month == 7 {
        181
    } else if month == 8 {
        212
    } else if month == 9 {
        243
    } else if month == 10 {
        273
    } else if month == 11 {
        304
    } else {
        334
    };
    common + leap
}

/// Number of leap years among the years `1, 2, .., year - 1`, continued to
/// years below 1 so that each leap year passed going down subtracts one.
pub open spec fn leap_years_before(year: int) -> int {
    (year - 1) / 4 - (year - 1) / 100 + (year - 1) / 400
}

/// Days from 1970-01-01 to the first of January of `year`.
pub open spec fn days_before_year(year: int) -> int {
    365 * (year - 1970) + leap_years_before(year) - leap_years_before(1970)
}

/// Days from 1970-01-01 to the given date; negative before the epoch.
pub open spec fn days_from_epoch(year: int, month: int, day: int) -> int {
    days_before_year(year) + days_before_month(year, month) + day - 1
}

/// Whether the three numbers name a day that exists.
pub open spec fn valid_date(year: int, month: int, day: int) -> bool {
    &&& MIN_YEAR <= year <= MAX_YEAR
    &&& 1 <= month <= 12
    &&& 1 <= day <= days_in_month(year, month)
}

/// Seconds from midnight to the given time of day.
pub open spec fn seconds_of_day(hour: int, minute: int, second: int) -> int {
    hour * 3600 + minute * 60 + second
}

/// Each month starts where the one before it ends.
pub proof fn lemma_month_starts(year: int, month: int)
    requires
        1 <= month <= 11,
    ensures
        days_before_month(year, month + 1) == days_before_month(year, month) + days_in_month(
            year,
            month,
        ),
{
}

/// A year has 365 days, or 366 when it is a leap year.
pub proof fn lemma_year_length(year: int)
    ensures
        days_before_year(year + 1) == days_before_year(year) + 365 + (if is_leap_year(year) {
            1int
        } else {
            0int
        }),
{
}

/// Later years start later, by at least 365 days for each year between.
pub proof fn lemma_years_ordered(a: int, b: int)
    requires
        a <= b,
    ensures
        days_before_year(b) >= days_before_year(a) + 365 * (b - a),
    decreases b - a,
{
    if a < b {
        lemma_years_ordered(a, b - 1);
        lemma_year_length(b - 1);
    }
}

/// Within one year, a later month starts no earlier than the end of an
/// earlier one.
pub proof fn lemma_months_ordered(year: int, a: int, b: int)
    requires
        1 <= a < b <= 12,
    ensures
        days_before_month(year, b) >= days_before_month(year, a) + days_in_month(year, a),
    decreases b - a,
{
    lemma_month_starts(year, b - 1);
    if a < b - 1 {
        lemma_months_ordered(year, a, b - 1);
    }
}

/// The last day of a year comes 364 or 365 days after its first.
pub proof fn lemma_day_of_year_bound(year: int, month: int, day: int)
    requires
        1 <= month <= 12,
        1 <= day <= days_in_month(year, month),
    ensures
        0 <= days_before_month(year, month) + day - 1 < days_before_year(year + 1)
            - days_before_year(year),
{
    lemma_year_length(year);
}

/// Two dates that exist and fall on the same day number are the same date.
pub proof fn lemma_days_injective(y1: int, m1: int, d1: int, y2: int, m2: int, d2: int)
    requires
        1 <= m1 <= 12,
        1 <= d1 <= days_in_month(y1, m1),
        1 <= m2 <= 12,
        1 <= d2 <= days_in_month(y2, m2),
        days_from_epoch(y1, m1, d1) == days_from_epoch(y2, m2, d2),
    ensures
        y1 == y2,
        m1 == m2,
        d1 == d2,
{
    lemma_day_of_year_bound(y1, m1, d1);
    lemma_day_of_year_bound(y2, m2, d2);
    if y1 < y2 {
        lemma_years_ordered(y1 + 1, y2);
    }
    if y2 < y1 {
        lemma_years_ordered(y2 + 1, y1);
    }
    assert(y1 == y2);
    if m1 < m2 {
        lemma_months_ordered(y1, m1, m2);
    }
    if m2 < m1 {
        lemma_months_ordered(y1, m2, m1);
    }
}

/// A later date has a larger day number.
pub proof fn lemma_days_monotonic(y1: int, m1: int, d1: int, y2: int, m2: int, d2: int)
    requires
        1 <= m1 <= 12,
        1 <= d1 <= days_in_month(y1, m1),
        1 <= m2 <= 12,
        1 <= d2 <= days_in_month(y2, m2),
        y1 < y2 || (y1 == y2 && (m1 < m2 || (m1 == m2 && d1 <= d2))),
    ensures
        days_from_epoch(y1, m1, d1) <= days_from_epoch(y2, m2, d2),
{
    lemma_day_of_year_bound(y1, m1, d1);
    lemma_day_of_year_bound(y2, m2, d2);
    if y1 < y2 {
        lemma_years_ordered(y1 + 1, y2);
    } else if m1 < m2 {
        lemma_months_ordered(y1, m1, m2);
    }
}

/// Finds the year that a day number falls in, among the years from `low`
/// up to but not including `high`.
pub proof fn lemma_year_of_day(n: int, low: int, high: int) -> (year: int)
    requires
        low < high,
        days_before_year(low) <= n < days_before_year(high),
    ensures
        low <= year < high,
        days_before_year(year) <= n < days_before_year(year + 1),
    decreases high - low,
{
    if n >= days_before_year(high - 1) {
        high - 1
    } else {
        lemma_year_of_day(n, low, high - 1)
    }
}

/// Finds the month that the `k`-th day of `year` falls in, counting the
/// first of January as day 0.
pub proof fn lemma_month_of_day(year: int, k: int) -> (month: int)
    requires
        0 <= k < days_before_year(year + 1) - days_before_year(year),
    ensures
        1 <= month <= 12,
        days_before_month(year, month) <= k < days_before_month(year, month) + days_in_month(
            year,
            month,
        ),
{
    lemma_year_length(year);
    if k < days_before_month(year, 2) {
        1
    } else if k < days_before_month(year, 3) {
        2
    } else if k < days_before_month(year, 4) {
        3
    } else if k < days_before_month(year, 5) {
        4
    } else if k < days_before_month(year, 6) {
        5
    } else if k < days_before_month(year, 7) {
        6
    } else if k < days_before_month(year, 8) {
        7
    } else if k < days_before_month(year, 9) {
        8
    } else if k < days_before_month(year, 10) {
        9
    } else if k < days_before_month(year, 11) {
        10
    } else if k < days_before_month(year, 12) {
        11
    } else {
        12
    }
}

/// Every day number between the first and the last day of the calendar
/// belongs to a date that exists.
pub proof fn lemma_date_of_day(n: int) -> (date: (int, int, int))
    requires
        days_from_epoch(MIN_YEAR as int, 1, 1) <= n <= days_from_epoch(MAX_YEAR as int, 12, 31),
    ensures
        valid_date(date.0, date.1, date.2),
        days_from_epoch(date.0, date.1, date.2) == n,
{
    lemma_year_length(MAX_YEAR as int);
    let year = lemma_year_of_day(n, MIN_YEAR as int, MAX_YEAR + 1);
    let k = n - days_before_year(year);
    let month = lemma_month_of_day(year, k);
    (year, month, k - days_before_month(year, month) + 1)
}

} // verus!
