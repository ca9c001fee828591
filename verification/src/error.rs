//! What the operations of this crate can fail with.

use vstd::prelude::*;

verus! {

/// Why an operation on the virtual clock was refused.
#[derive(Clone, Copy, Debug, PartialEq, Eq, Structural)]
pub enum FreezeError {
    /// The calendar fields do not name an instant that exists.
    InvalidDateTime,
    /// The clock source could not be found or replaced.
    InterceptionUnavailable,
    /// The override is still in place after it should have been removed.
    RestoreFailed,
    /// An override is in place already, here or elsewhere in the process.
    AlreadyActive,
}

} // verus!
