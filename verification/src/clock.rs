//! The one value that every overridden clock read reports.

use crate::virtual_time::{TimeSpec, TimeVal, VirtualTime};
use vstd::prelude::*;

verus! {

/// The instant that is "now" to the whole process while an override is in
/// place. The holder keeps one of these behind a lock; a writer has it
/// exclusively, so a reader sees the value before a write or after it.
#[derive(Debug)]
pub struct ClockState {
    now: VirtualTime,
}

impl View for ClockState {
    type V = VirtualTime;

    closed spec fn view(&self) -> VirtualTime {
        self.now
    }
}

impl ClockState {
    /// A clock that stands at the epoch.
    pub fn new() -> (r: ClockState)
        ensures
            r@ == VirtualTime::zero(),
    {
        ClockState { now: VirtualTime { nanos: 0 } }
    }

    /// The instant the clock stands at.
    pub fn read(&self) -> (r: VirtualTime)
        ensures
            r == self@,
    {
        self.now
    }

    /// Sets the clock to `t`.
    pub fn write(&mut self, t: VirtualTime)
        ensures
            final(self)@ == t,
    {
        self.now = t;
    }

    /// What a nanosecond-resolution clock read returns now.
    pub fn read_timespec(&self) -> (r: TimeSpec)
        ensures
            r == self@.timespec(),
    {
        self.now.to_timespec()
    }

    /// What a microsecond-resolution clock read returns now.
    pub fn read_timeval(&self) -> (r: TimeVal)
        ensures
            r == self@.timeval(),
    {
        self.now.to_timeval()
    }
}

} // verus!
