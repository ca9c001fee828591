//! Virtual time and the two forms in which a clock read hands it out.

use vstd::prelude::*;

verus! {

/// Nanoseconds in a second.
pub const NANOS_PER_SECOND: i128 = 1_000_000_000;

/// Nanoseconds in a microsecond.
pub const NANOS_PER_MICRO: i128 = 1_000;

/// Microseconds in a second.
pub const MICROS_PER_SECOND: i128 = 1_000_000;

/// An instant, or a span between two instants, as a signed count of
/// nanoseconds. As an instant it counts from 1970-01-01T00:00:00 UTC.
#[derive(Clone, Copy, Debug, PartialEq, Eq, Structural)]
pub struct VirtualTime {
    pub nanos: i128,
}

/// What a nanosecond-resolution clock read returns.
#[derive(Clone, Copy, Debug, PartialEq, Eq, Structural)]
pub struct TimeSpec {
    pub seconds: i64,
    pub nanos: i64,
}

/// What a microsecond-resolution clock read returns.
#[derive(Clone, Copy, Debug, PartialEq, Eq, Structural)]
pub struct TimeVal {
    pub seconds: i64,
    pub micros: i64,
}

/// Quotient of `a` by a positive `b`, rounded toward zero.
pub open spec fn div_toward_zero(a: int, b: int) -> int {
    if a >= 0 {
        a / b
    } else {
        -((-a) / b)
    }
}

/// What `div_toward_zero` leaves over; it has the sign of `a` or is zero.
pub open spec fn rem_toward_zero(a: int, b: int) -> int {
    a - b * div_toward_zero(a, b)
}

/// The value of `i64` nearest to `x`.
pub open spec fn clamp_to_i64(x: int) -> i64 {
    if x < i64::MIN {
        i64::MIN
    } else if x > i64::MAX {
        i64::MAX
    } else {
        x as i64
    }
}

/// The value of `i128` nearest to `x`.
pub open spec fn clamp_to_i128(x: int) -> i128 {
    if x < i128::MIN {
        i128::MIN
    } else if x > i128::MAX {
        i128::MAX
    } else {
        x as i128
    }
}

impl VirtualTime {
    /// The epoch itself.
    pub open spec fn zero() -> VirtualTime {
        VirtualTime { nanos: 0 }
    }

    /// Whole seconds, rounded toward zero.
    pub open spec fn whole_seconds(self) -> int {
        div_toward_zero(self.nanos as int, NANOS_PER_SECOND as int)
    }

    /// Nanoseconds beyond the whole seconds; negative before the epoch.
    pub open spec fn subsec_nanos(self) -> int {
        rem_toward_zero(self.nanos as int, NANOS_PER_SECOND as int)
    }

    /// Whether the whole seconds fit the seconds field of a clock read.
    pub open spec fn seconds_fit(self) -> bool {
        i64::MIN <= self.whole_seconds() <= i64::MAX
    }

    /// The nanosecond-resolution read-out of this instant.
    pub open spec fn timespec(self) -> TimeSpec {
        TimeSpec {
            seconds: clamp_to_i64(self.whole_seconds()),
            nanos: self.subsec_nanos() as i64,
        }
    }

    /// The microsecond-resolution read-out of this instant.
    pub open spec fn timeval(self) -> TimeVal {
        TimeVal {
            seconds: clamp_to_i64(self.whole_seconds()),
            micros: div_toward_zero(self.subsec_nanos(), NANOS_PER_MICRO as int) as i64,
        }
    }

    /// This instant moved by `delta`, stopping at the ends of the range.
    pub open spec fn plus(self, delta: VirtualTime) -> VirtualTime {
        VirtualTime { nanos: clamp_to_i128(self.nanos + delta.nanos) }
    }

    /// Whether moving by `delta` stays within the range.
    pub open spec fn can_add(self, delta: VirtualTime) -> bool {
        i128::MIN <= self.nanos + delta.nanos <= i128::MAX
    }

    /// Splits the instant into seconds and nanoseconds, both rounded toward
    /// zero, as a nanosecond clock reports it. Seconds that do not fit in
    /// 64 bits are reported as the nearest value that does.
    pub fn to_timespec(&self) -> (r: TimeSpec)
        ensures
            r == self.timespec(),
    {
        let whole: i128 = self.nanos / NANOS_PER_SECOND;
        let rest: i128 = self.nanos % NANOS_PER_SECOND;
        TimeSpec { seconds: saturate_i64(whole), nanos: rest as i64 }
    }

    /// Splits the instant into seconds and microseconds, both rounded
    /// toward zero, as a microsecond clock reports it.
    pub fn to_timeval(&self) -> (r: TimeVal)
        ensures
            r == self.timeval(),
    {
        let whole: i128 = self.nanos / NANOS_PER_SECOND;
        let rest: i128 = self.nanos % NANOS_PER_SECOND;
        let micros: i128 = rest / NANOS_PER_MICRO;
        TimeVal { seconds: saturate_i64(whole), micros: micros as i64 }
    }

    /// Moves the instant by `delta`. A sum beyond the range of the
    /// representation stops at the nearest end of it.
    pub fn saturating_add(&self, delta: VirtualTime) -> (r: VirtualTime)
        ensures
            r == self.plus(delta),
    {
        match self.nanos.checked_add(delta.nanos) {
            Some(sum) => VirtualTime { nanos: sum },
            None => {
                if delta.nanos > 0 {
                    VirtualTime { nanos: i128::MAX }
                } else {
                    VirtualTime { nanos: i128::MIN }
                }
            },
        }
    }
}

/// Narrows `x` to 64 bits, stopping at the ends of that range.
pub fn saturate_i64(x: i128) -> (r: i64)
    ensures
        r == clamp_to_i64(x as int),
{
    if x < i64::MIN as i128 {
        i64::MIN
    } else if x > i64::MAX as i128 {
        i64::MAX
    } else {
        x as i64
    }
}

/// A nanosecond read-out loses nothing: while the seconds fit, seconds and
/// nanoseconds together give back the instant, and the nanoseconds stay
/// below one second and carry the sign of the instant.
pub proof fn lemma_timespec_exact(t: VirtualTime)
    requires
        t.seconds_fit(),
    ensures
        t.timespec().seconds * NANOS_PER_SECOND + t.timespec().nanos == t.nanos,
        -NANOS_PER_SECOND < t.timespec().nanos < NANOS_PER_SECOND,
        t.nanos >= 0 ==> t.timespec().nanos >= 0 && t.timespec().seconds >= 0,
        t.nanos <= 0 ==> t.timespec().nanos <= 0 && t.timespec().seconds <= 0,
{
}

/// A microsecond read-out cuts off, it never rounds: what it reports lies
/// between zero and the instant, less than one microsecond short of it.
pub proof fn lemma_timeval_truncates(t: VirtualTime)
    requires
        t.seconds_fit(),
    ensures
        ({
            let reported = t.timeval().seconds * NANOS_PER_SECOND + t.timeval().micros
                * NANOS_PER_MICRO;
            &&& t.nanos >= 0 ==> t.nanos - NANOS_PER_MICRO < reported <= t.nanos
            &&& t.nanos <= 0 ==> t.nanos <= reported < t.nanos + NANOS_PER_MICRO
        }),
        -MICROS_PER_SECOND < t.timeval().micros < MICROS_PER_SECOND,
        t.timeval().seconds == t.timespec().seconds,
        t.timeval().micros == div_toward_zero(t.timespec().nanos as int, NANOS_PER_MICRO as int),
{
}

/// An instant that is a whole number of microseconds loses nothing in a
/// microsecond read-out either.
pub proof fn lemma_timeval_exact(t: VirtualTime)
    requires
        t.seconds_fit(),
        t.nanos % NANOS_PER_MICRO == 0,
    ensures
        t.timeval().seconds * NANOS_PER_SECOND + t.timeval().micros * NANOS_PER_MICRO == t.nanos,
{
}

/// Moving by two spans gives the same instant in either order, as long as
/// no step leaves the range.
pub proof fn lemma_plus_commutes(t: VirtualTime, a: VirtualTime, b: VirtualTime)
    requires
        t.can_add(a),
        t.can_add(b),
        i128::MIN <= t.nanos + a.nanos + b.nanos <= i128::MAX,
    ensures
        t.plus(a).plus(b) == t.plus(b).plus(a),
        t.plus(a).plus(b).nanos == t.nanos + a.nanos + b.nanos,
{
}

} // verus!
