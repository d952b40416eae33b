//! Errors of a window.

use vstd::prelude::*;

verus! {

/// Why a window could not be made.
#[derive(Clone, Copy, Debug, PartialEq, Eq, Structural)]
pub enum WindowException {
    BadCoordinateException,
}

} // verus!
