//! The controller of one freeze session.

use crate::clock::ClockState;
use crate::error::FreezeError;
use crate::host::{
    lemma_civil_range_fits, lemma_round_trip, lemma_valid_in_civil_range, HostDateTime,
    HostDuration,
};
use crate::virtual_time::{
    lemma_plus_commutes, lemma_timespec_exact, lemma_timeval_exact, VirtualTime,
    MICROS_PER_SECOND, NANOS_PER_MICRO, NANOS_PER_SECOND,
};
use vstd::prelude::*;

verus! {

/// Whether a freezer has an override of the clock source in place.
#[derive(Clone, Copy, Debug, PartialEq, Eq, Structural)]
enum Session {
    Inactive,
    Active,
}

/// Sets and moves the virtual clock, and keeps track of whether its
/// override of the clock source is in place.
///
/// The freezer keeps its own copy of the instant it last set. `tick` adds to
/// that copy, not to what the shared clock holds, so with several freezers
/// at work the shared clock shows what the last of them wrote.
///
/// Dropping a freezer whose session is active leaves the override in place:
/// whoever installed it has to call `exit` and remove it.
#[derive(Debug)]
pub struct Freezer {
    now: VirtualTime,
    session: Session,
}

/// What a freezer is made of, as contracts see it.
pub struct FreezerView {
    pub now: VirtualTime,
    pub active: bool,
}

impl FreezerView {
    /// The state after the clock was set to `t`.
    pub open spec fn moved(self, t: VirtualTime) -> FreezerView {
        FreezerView { now: t, active: self.active }
    }

    /// The state after the clock was moved by `delta`.
    pub open spec fn ticked(self, delta: HostDuration) -> FreezerView {
        FreezerView { now: self.now.plus(delta.as_virtual()), active: self.active }
    }

    /// What `plan_enter` answers when the process-wide query said
    /// `overwritten`.
    pub open spec fn enter_plan(self, overwritten: bool) -> Result<(), FreezeError> {
        if self.active || overwritten {
            Err(FreezeError::AlreadyActive)
        } else {
            Ok(())
        }
    }

    /// The state after an attempt to install the override.
    pub open spec fn entered(self, installed: bool) -> FreezerView {
        FreezerView { now: self.now, active: self.active || installed }
    }

    /// What `enter` answers to an attempt to install the override.
    pub open spec fn enter_result(self, installed: bool) -> Result<(), FreezeError> {
        if self.active {
            Err(FreezeError::AlreadyActive)
        } else if installed {
            Ok(())
        } else {
            Err(FreezeError::InterceptionUnavailable)
        }
    }

    /// The state after `exit`.
    pub open spec fn exited(self) -> FreezerView {
        FreezerView { now: self.now, active: false }
    }

    /// What `exit` answers when the process-wide query afterwards said
    /// `still_overwritten`.
    pub open spec fn exit_result(self, still_overwritten: bool) -> Result<(), FreezeError> {
        if self.active && still_overwritten {
            Err(FreezeError::RestoreFailed)
        } else {
            Ok(())
        }
    }
}

impl View for Freezer {
    type V = FreezerView;

    closed spec fn view(&self) -> FreezerView {
        FreezerView { now: self.now, active: self.session == Session::Active }
    }
}

impl Freezer {
    /// Starts a session at the instant that `dt` names on a wall clock
    /// `offset_seconds` east of UTC, and sets the shared clock to it. No
    /// override is installed yet. Fields that name no instant are refused
    /// and leave the shared clock as it was.
    ///
    /// The offset is an argument so that it is read before the shared clock
    /// is borrowed: while an override is in place, reading the local time
    /// zone reads the shared clock.
    pub fn new(clock: &mut ClockState, dt: HostDateTime, offset_seconds: i32) -> (r: Result<
        Freezer,
        FreezeError,
    >)
        ensures
            r is Ok <==> dt.is_valid(),
            r matches Ok(f) ==> {
                &&& f@.now == dt.virtual_at(offset_seconds as int)
                &&& !f@.active
                &&& final(clock)@ == f@.now
            },
            r matches Err(e) ==> e == FreezeError::InvalidDateTime && final(clock)@ == old(
                clock,
            )@,
    {
        match dt.to_virtual(offset_seconds) {
            Err(e) => Err(e),
            Ok(t) => {
                clock.write(t);
                Ok(Freezer { now: t, session: Session::Inactive })
            },
        }
    }

    /// The instant this freezer last set.
    pub fn now(&self) -> (r: VirtualTime)
        ensures
            r == self@.now,
    {
        self.now
    }

    /// Whether this freezer has its override in place.
    pub fn is_active(&self) -> (r: bool)
        ensures
            r == self@.active,
    {
        match self.session {
            Session::Active => true,
            Session::Inactive => false,
        }
    }

    /// Sets the clock to the instant that `dt` names on a wall clock
    /// `offset_seconds` east of UTC, and returns what that clock then
    /// shows: `dt` itself. Fields that name no instant are refused and
    /// change nothing.
    pub fn move_to(&mut self, clock: &mut ClockState, dt: HostDateTime, offset_seconds: i32) -> (r:
        Result<HostDateTime, FreezeError>)
        ensures
            r == (if dt.is_valid() {
                Ok::<HostDateTime, FreezeError>(dt)
            } else {
                Err::<HostDateTime, FreezeError>(FreezeError::InvalidDateTime)
            }),
            dt.is_valid() ==> final(self)@ == old(self)@.moved(
                dt.virtual_at(offset_seconds as int),
            ) && final(clock)@ == dt.virtual_at(offset_seconds as int),
            !dt.is_valid() ==> final(self)@ == old(self)@ && final(clock)@ == old(clock)@,
    {
        match dt.to_virtual(offset_seconds) {
            Err(e) => Err(e),
            Ok(t) => {
                self.now = t;
                clock.write(t);
                proof {
                    lemma_round_trip(dt, offset_seconds);
                }
                HostDateTime::from_virtual(t, offset_seconds).ok_or(FreezeError::InvalidDateTime)
            },
        }
    }

    /// Moves the clock by `delta`, counted from the instant this freezer
    /// last set, and returns what a wall clock `offset_seconds` east of UTC
    /// then shows, if the calendar reaches that far. The clock moves in
    /// either case: to the old instant plus `delta` exactly, unless that sum
    /// lies beyond the range of virtual time, where it stops at the end of
    /// the range.
    pub fn tick(&mut self, clock: &mut ClockState, delta: HostDuration, offset_seconds: i32) -> (r:
        Option<HostDateTime>)
        ensures
            final(self)@ == old(self)@.ticked(delta),
            old(self)@.now.can_add(delta.as_virtual()) ==> final(self)@.now.nanos == old(
                self,
            )@.now.nanos + delta.total_nanos(),
            final(clock)@ == final(self)@.now,
            r == HostDateTime::shown_at(final(self)@.now, offset_seconds as int),
    {
        let t = self.now.saturating_add(delta.to_virtual());
        self.now = t;
        clock.write(t);
        HostDateTime::from_virtual(t, offset_seconds)
    }

    /// Says whether this freezer may install its override now, given the
    /// answer to the process-wide query whether some override is in place.
    /// It refuses while its own session is active and while anyone's
    /// override is in place.
    pub fn plan_enter(&self, overwritten: bool) -> (r: Result<(), FreezeError>)
        ensures
            r == self@.enter_plan(overwritten),
    {
        if self.is_active() || overwritten {
            Err(FreezeError::AlreadyActive)
        } else {
            Ok(())
        }
    }

    /// Records the outcome of an attempt to install the override. The
    /// session becomes active when the override went in; a failed attempt
    /// leaves it inactive. A session that is active already stays so and
    /// the call is refused.
    pub fn enter(&mut self, installed: bool) -> (r: Result<(), FreezeError>)
        ensures
            r == old(self)@.enter_result(installed),
            final(self)@ == old(self)@.entered(installed),
    {
        if self.is_active() {
            Err(FreezeError::AlreadyActive)
        } else if installed {
            self.session = Session::Active;
            Ok(())
        } else {
            Err(FreezeError::InterceptionUnavailable)
        }
    }

    /// Ends the session, given the answer to the process-wide query after
    /// the override was asked to be removed. The session is inactive
    /// afterwards in every case. If this session was active and an override
    /// is still in place, the process is left with a virtual clock and the
    /// call reports it.
    pub fn exit(&mut self, still_overwritten: bool) -> (r: Result<(), FreezeError>)
        ensures
            r == old(self)@.exit_result(still_overwritten),
            final(self)@ == old(self)@.exited(),
    {
        let was_active = self.is_active();
        self.session = Session::Inactive;
        if was_active && still_overwritten {
            Err(FreezeError::RestoreFailed)
        } else {
            Ok(())
        }
    }
}

/// Two ticks give the same instant in either order, the start moved by both
/// spans, as long as no step leaves the range of virtual time.
pub proof fn lemma_tick_commutes(f: FreezerView, a: HostDuration, b: HostDuration)
    requires
        f.now.can_add(a.as_virtual()),
        f.now.can_add(b.as_virtual()),
        i128::MIN <= f.now.nanos + a.total_nanos() + b.total_nanos() <= i128::MAX,
    ensures
        f.ticked(a).ticked(b) == f.ticked(b).ticked(a),
        f.ticked(a).ticked(b).now.nanos == f.now.nanos + a.total_nanos() + b.total_nanos(),
{
    lemma_plus_commutes(f.now, a.as_virtual(), b.as_virtual());
}

/// Every span is small beside the range of virtual time: from an instant in
/// the inner half of the range no two ticks can reach an end of it, so there
/// two ticks give the same instant in either order, whatever the spans.
pub proof fn lemma_tick_commutes_in_inner_half(f: FreezerView, a: HostDuration, b: HostDuration)
    requires
        i128::MIN / 2 <= f.now.nanos <= i128::MAX / 2,
    ensures
        f.ticked(a).ticked(b) == f.ticked(b).ticked(a),
        f.ticked(a).ticked(b).now.nanos == f.now.nanos + a.total_nanos() + b.total_nanos(),
{
    lemma_tick_commutes(f, a, b);
}

/// Once the clock was set to valid fields, every read-out is those fields:
/// the seconds fit, seconds and nanoseconds give back the instant exactly,
/// so do seconds and microseconds, and the wall clock shows the fields.
pub proof fn lemma_read_after_move(f: FreezerView, dt: HostDateTime, offset_seconds: i32)
    requires
        dt.is_valid(),
    ensures
        ({
            let t = f.moved(dt.virtual_at(offset_seconds as int)).now;
            &&& t.nanos == (dt.civil_micros() - offset_seconds * MICROS_PER_SECOND)
                * NANOS_PER_MICRO
            &&& t.seconds_fit()
            &&& t.timespec().seconds * NANOS_PER_SECOND + t.timespec().nanos == t.nanos
            &&& t.timeval().seconds * NANOS_PER_SECOND + t.timeval().micros * NANOS_PER_MICRO
                == t.nanos
            &&& HostDateTime::shown_at(t, offset_seconds as int) == Some(dt)
        }),
{
    let t = dt.virtual_at(offset_seconds as int);
    let civil = dt.civil_micros();
    assert(i64::MIN < civil < i64::MAX) by {
        lemma_valid_in_civil_range(dt);
        lemma_civil_range_fits();
    }
    assert(t.nanos == (civil - offset_seconds * MICROS_PER_SECOND) * NANOS_PER_MICRO);
    assert(t.seconds_fit());
    lemma_timespec_exact(t);
    lemma_timeval_exact(t);
    lemma_round_trip(dt, offset_seconds);
}

/// Leaving twice is the same as leaving once: the session is inactive after
/// the first `exit`, a second one changes nothing and reports no failure,
/// and so does an `exit` that no successful `enter` came before.
pub proof fn lemma_exit_idempotent(f: FreezerView, first: bool, second: bool)
    ensures
        !f.exited().active,
        f.exited().exited() == f.exited(),
        f.exited().exit_result(second) == Ok::<(), FreezeError>(()),
        !f.active ==> f.exited() == f && f.exit_result(first) == Ok::<(), FreezeError>(()),
{
}

/// A session is active exactly from an `enter` that found the override
/// installed until the next `exit`; an `enter` that fails leaves it as it
/// was.
pub proof fn lemma_session_cycle(f: FreezerView, installed: bool)
    requires
        !f.active,
    ensures
        f.entered(installed).active == installed,
        f.enter_result(installed) is Ok <==> installed,
        f.entered(installed).exited() == f,
        f.entered(true).enter_result(installed) == Err::<(), FreezeError>(
            FreezeError::AlreadyActive,
        ),
        f.entered(true).enter_plan(false) == Err::<(), FreezeError>(FreezeError::AlreadyActive),
{
}

} // verus!
