//! Calendar values as a host hands them in, and their conversion to and
//! from virtual time.

use crate::calendar::{
    days_from_epoch, lemma_date_of_day, lemma_days_injective, lemma_days_monotonic,
    seconds_of_day, valid_date, MAX_YEAR, MIN_YEAR, SECONDS_PER_DAY,
};
use crate::error::FreezeError;
use crate::virtual_time::{VirtualTime, MICROS_PER_SECOND, NANOS_PER_MICRO, NANOS_PER_SECOND};
use chrono::{DateTime, Datelike, NaiveDate, Timelike};
use vstd::prelude::*;

verus! {

/// A date and time of day on some wall clock, field by field.
#[derive(Clone, Copy, Debug, PartialEq, Eq, Structural)]
pub struct HostDateTime {
    pub year: i32,
    pub month: u32,
    pub day: u32,
    pub hour: u32,
    pub minute: u32,
    pub second: u32,
    pub microsecond: u32,
}

/// A span of time as days, seconds and microseconds that are added up.
#[derive(Clone, Copy, Debug, PartialEq, Eq, Structural)]
pub struct HostDuration {
    pub days: i32,
    pub seconds: i32,
    pub microseconds: i32,
}

/// Microseconds from 1970-01-01T00:00:00 to the first instant of the
/// calendar.
pub open spec fn min_civil_micros() -> int {
    days_from_epoch(MIN_YEAR as int, 1, 1) * SECONDS_PER_DAY * MICROS_PER_SECOND
}

/// Microseconds from 1970-01-01T00:00:00 to the last instant of the
/// calendar.
pub open spec fn max_civil_micros() -> int {
    (days_from_epoch(MAX_YEAR as int, 12, 31) + 1) * SECONDS_PER_DAY * MICROS_PER_SECOND - 1
}

/// Whether a count of microseconds falls on an instant of the calendar.
pub open spec fn in_civil_range(micros: int) -> bool {
    min_civil_micros() <= micros <= max_civil_micros()
}

/// Microseconds on the wall clock at `offset_seconds` east of UTC when
/// virtual time is `t`, rounded down to a whole microsecond.
pub open spec fn local_micros(t: VirtualTime, offset_seconds: int) -> int {
    t.nanos / NANOS_PER_MICRO + offset_seconds * MICROS_PER_SECOND
}

impl HostDateTime {
    /// Whether the date exists and the time of day is within its ranges.
    pub open spec fn is_valid(self) -> bool {
        &&& valid_date(self.year as int, self.month as int, self.day as int)
        &&& self.hour < 24
        &&& self.minute < 60
        &&& self.second < 60
        &&& self.microsecond < MICROS_PER_SECOND
    }

    /// Whether the fields are taken as they are by the calendar arithmetic
    /// underneath: it also takes a second 59 stretched by up to one more
    /// second of microseconds.
    pub open spec fn is_representable(self) -> bool {
        &&& valid_date(self.year as int, self.month as int, self.day as int)
        &&& self.hour < 24
        &&& self.minute < 60
        &&& self.second < 60
        &&& (self.microsecond < MICROS_PER_SECOND || (self.second == 59 && self.microsecond < 2
            * MICROS_PER_SECOND))
    }

    /// Microseconds from 1970-01-01T00:00:00 on the same wall clock.
    pub open spec fn civil_micros(self) -> int {
        (days_from_epoch(self.year as int, self.month as int, self.day as int) * SECONDS_PER_DAY
            + seconds_of_day(self.hour as int, self.minute as int, self.second as int))
            * MICROS_PER_SECOND + self.microsecond
    }

    /// The instant these fields name on a wall clock that is
    /// `offset_seconds` east of UTC.
    pub open spec fn virtual_at(self, offset_seconds: int) -> VirtualTime {
        VirtualTime {
            nanos: ((self.civil_micros() - offset_seconds * MICROS_PER_SECOND)
                * NANOS_PER_MICRO) as i128,
        }
    }

    /// What the wall clock at `offset_seconds` east of UTC shows when
    /// virtual time is `t`, if the calendar reaches that far.
    pub open spec fn shown_at(t: VirtualTime, offset_seconds: int) -> Option<HostDateTime> {
        let local = local_micros(t, offset_seconds);
        if in_civil_range(local) {
            Some(choose|d: HostDateTime| d.is_valid() && d.civil_micros() == local)
        } else {
            None
        }
    }
}

impl HostDuration {
    /// The span in nanoseconds.
    pub open spec fn total_nanos(self) -> int {
        (self.days * SECONDS_PER_DAY + self.seconds) * NANOS_PER_SECOND + self.microseconds
            * NANOS_PER_MICRO
    }

    /// The span as virtual time.
    pub open spec fn as_virtual(self) -> VirtualTime {
        VirtualTime { nanos: self.total_nanos() as i128 }
    }

    /// Adds up days, seconds and microseconds. Every combination of the
    /// three is accepted.
    pub fn to_virtual(&self) -> (r: VirtualTime)
        ensures
            r == self.as_virtual(),
            r.nanos == self.total_nanos(),
    {
        let days: i128 = self.days as i128;
        let seconds: i128 = self.seconds as i128;
        let micros: i128 = self.microseconds as i128;
        VirtualTime {
            nanos: (days * SECONDS_PER_DAY + seconds) * NANOS_PER_SECOND + micros * NANOS_PER_MICRO,
        }
    }
}

impl HostDateTime {
    /// Converts the fields to virtual time, reading them on a wall clock
    /// that is `offset_seconds` east of UTC. Fields that name no instant
    /// are refused, never adjusted.
    pub fn to_virtual(&self, offset_seconds: i32) -> (r: Result<VirtualTime, FreezeError>)
        ensures
            r == (if self.is_valid() {
                Ok::<VirtualTime, FreezeError>(self.virtual_at(offset_seconds as int))
            } else {
                Err::<VirtualTime, FreezeError>(FreezeError::InvalidDateTime)
            }),
    {
        if self.microsecond as i128 >= MICROS_PER_SECOND {
            return Err(FreezeError::InvalidDateTime);
        }
        match civil_to_micros(self) {
            None => Err(FreezeError::InvalidDateTime),
            Some(civil) => {
                let local: i128 = civil as i128;
                let offset: i128 = offset_seconds as i128;
                Ok(VirtualTime { nanos: (local - offset * MICROS_PER_SECOND) * NANOS_PER_MICRO })
            },
        }
    }

    /// Reads virtual time off a wall clock that is `offset_seconds` east of
    /// UTC, cutting off what is finer than a microsecond. There is no
    /// result where the calendar does not reach.
    pub fn from_virtual(t: VirtualTime, offset_seconds: i32) -> (r: Option<HostDateTime>)
        ensures
            r == Self::shown_at(t, offset_seconds as int),
    {
        let cut: i128 = t.nanos / NANOS_PER_MICRO;
        let whole: i128 = if t.nanos % NANOS_PER_MICRO < 0 {
            cut - 1
        } else {
            cut
        };
        let offset: i128 = offset_seconds as i128;
        let local: i128 = whole + offset * MICROS_PER_SECOND;
        proof {
            lemma_civil_range_fits();
        }
        if local < i64::MIN as i128 || local > i64::MAX as i128 {
            return None;
        }
        let shown = micros_to_civil(local as i64);
        proof {
            if let Some(d) = shown {
                lemma_shown_at_unique(t, offset_seconds as int, d);
            }
        }
        shown
    }
}

/// Every instant of the calendar has a count of microseconds that fits in
/// 64 bits.
pub proof fn lemma_civil_range_fits()
    ensures
        i64::MIN < min_civil_micros(),
        max_civil_micros() < i64::MAX,
{
}

/// Fields that are valid name an instant of the calendar.
pub proof fn lemma_valid_in_civil_range(d: HostDateTime)
    requires
        d.is_valid(),
    ensures
        in_civil_range(d.civil_micros()),
{
    lemma_days_monotonic(MIN_YEAR as int, 1, 1, d.year as int, d.month as int, d.day as int);
    lemma_days_monotonic(d.year as int, d.month as int, d.day as int, MAX_YEAR as int, 12, 31);
}

/// Two valid values that name the same instant have the same fields.
pub proof fn lemma_civil_micros_injective(a: HostDateTime, b: HostDateTime)
    requires
        a.is_valid(),
        b.is_valid(),
        a.civil_micros() == b.civil_micros(),
    ensures
        a == b,
{
    let da = days_from_epoch(a.year as int, a.month as int, a.day as int);
    let db = days_from_epoch(b.year as int, b.month as int, b.day as int);
    let sa = seconds_of_day(a.hour as int, a.minute as int, a.second as int);
    let sb = seconds_of_day(b.hour as int, b.minute as int, b.second as int);
    assert(0 <= sa < SECONDS_PER_DAY && 0 <= sb < SECONDS_PER_DAY);
    assert(a.microsecond == b.microsecond && da * SECONDS_PER_DAY + sa == db * SECONDS_PER_DAY
        + sb);
    assert(da == db && sa == sb);
    lemma_days_injective(
        a.year as int,
        a.month as int,
        a.day as int,
        b.year as int,
        b.month as int,
        b.day as int,
    );
}

/// Valid fields whose instant is what the wall clock shows are the
/// read-out of that wall clock.
pub proof fn lemma_shown_at_unique(t: VirtualTime, offset_seconds: int, d: HostDateTime)
    requires
        d.is_valid(),
        d.civil_micros() == local_micros(t, offset_seconds),
    ensures
        HostDateTime::shown_at(t, offset_seconds) == Some(d),
{
    lemma_valid_in_civil_range(d);
    let local = local_micros(t, offset_seconds);
    let chosen = choose|c: HostDateTime| c.is_valid() && c.civil_micros() == local;
    lemma_civil_micros_injective(chosen, d);
}

/// Reading back an instant that was made from valid fields, on the same
/// wall clock, gives those fields again.
pub proof fn lemma_round_trip(d: HostDateTime, offset_seconds: i32)
    requires
        d.is_valid(),
    ensures
        HostDateTime::shown_at(d.virtual_at(offset_seconds as int), offset_seconds as int) == Some(
            d,
        ),
{
    lemma_valid_in_civil_range(d);
    lemma_civil_range_fits();
    lemma_shown_at_unique(d.virtual_at(offset_seconds as int), offset_seconds as int, d);
}

/// What a wall clock shows is valid and names the instant it was read
/// from, less what is finer than a microsecond.
pub proof fn lemma_shown_within_microsecond(t: VirtualTime, offset_seconds: i32, d: HostDateTime)
    requires
        HostDateTime::shown_at(t, offset_seconds as int) == Some(d),
    ensures
        d.is_valid(),
        d.virtual_at(offset_seconds as int).nanos <= t.nanos < d.virtual_at(
            offset_seconds as int,
        ).nanos + NANOS_PER_MICRO,
{
    let local = local_micros(t, offset_seconds as int);
    lemma_civil_range_fits();
    lemma_civil_range_inhabited(local);
}

/// Every count of microseconds within the calendar is named by some valid
/// fields.
pub proof fn lemma_civil_range_inhabited(micros: int)
    requires
        in_civil_range(micros),
    ensures
        exists|d: HostDateTime| d.is_valid() && d.civil_micros() == micros,
{
    lemma_civil_range_fits();
    let seconds = micros / (MICROS_PER_SECOND as int);
    let days = seconds / (SECONDS_PER_DAY as int);
    let of_day = seconds % (SECONDS_PER_DAY as int);
    let date = lemma_date_of_day(days);
    let d = HostDateTime {
        year: date.0 as i32,
        month: date.1 as u32,
        day: date.2 as u32,
        hour: (of_day / 3_600) as u32,
        minute: (of_day % 3_600 / 60) as u32,
        second: (of_day % 60) as u32,
        microsecond: (micros % (MICROS_PER_SECOND as int)) as u32,
    };
    assert(d.is_valid() && d.civil_micros() == micros);
}

/// Calls `NaiveDate::from_ymd_opt`, `NaiveDate::and_hms_micro_opt`,
/// `NaiveDateTime::and_utc` and `DateTime::timestamp_micros` of chrono.
/// Trusted: the fields are refused exactly when the date does not exist in
/// the proleptic Gregorian calendar, the year is outside the calendar or the
/// time of day is out of range, and otherwise the result counts the
/// microseconds from 1970-01-01T00:00:00 with every day 86 400 seconds long.
/// None of these calls panics.
#[verifier::external_body]
fn civil_to_micros(d: &HostDateTime) -> (r: Option<i64>)
    ensures
        r is Some <==> d.is_representable(),
        r matches Some(micros) ==> micros == d.civil_micros(),
{
    let date = NaiveDate::from_ymd_opt(d.year, d.month, d.day)?;
    let at = date.and_hms_micro_opt(d.hour, d.minute, d.second, d.microsecond)?;
    Some(at.and_utc().timestamp_micros())
}

/// Calls `DateTime::from_timestamp_micros` of chrono and reads the fields
/// of what it returns. Trusted: the count is refused exactly when it falls
/// outside the calendar, and otherwise the fields name the date and time of
/// day that lie that many microseconds from 1970-01-01T00:00:00. The call
/// does not panic.
#[verifier::external_body]
fn micros_to_civil(micros: i64) -> (r: Option<HostDateTime>)
    ensures
        r is Some <==> in_civil_range(micros as int),
        r matches Some(d) ==> d.is_valid() && d.civil_micros() == micros,
{
    let at = DateTime::from_timestamp_micros(micros)?;
    Some(
        HostDateTime {
            year: at.year(),
            month: at.month(),
            day: at.day(),
            hour: at.hour(),
            minute: at.minute(),
            second: at.second(),
            microsecond: at.timestamp_subsec_micros(),
        },
    )
}

} // verus!
