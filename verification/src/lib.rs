//! A virtual clock for deterministic tests.
//!
//! The crate keeps a single notion of "now" as a signed count of nanoseconds
//! since the Unix epoch, converts between that count and calendar fields,
//! and decides when an override of the process's clock sources is installed
//! and removed. Installing the override itself is left to the caller, and
//! so is reading the local time zone: every conversion takes the offset of
//! the wall clock from UTC as an argument.

pub mod calendar;
pub mod clock;
pub mod error;
pub mod freezer;
pub mod host;
pub mod virtual_time;
