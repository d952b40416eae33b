//! Errors that a handle reports.

use vstd::prelude::*;

verus! {

/// What a handle could not do.
#[derive(Clone, Copy, Debug, PartialEq, Eq, Structural)]
pub enum HandleError {
    WriteFailed,
    SetCursorLocationFailed,
    SetForegroundFailed,
    SetBackgroundFailed,
    LockFailed,
}

} // verus!
