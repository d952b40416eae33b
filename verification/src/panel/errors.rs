//! Errors of a panel.

use vstd::prelude::*;

verus! {

/// Why a panel could not draw.
#[derive(Clone, Copy, Debug, PartialEq, Eq, Structural)]
pub enum PanelError {
    BadCoordinate,
    OutOfBounds,
    BadRenderObject,
    WriteFailed,
    WriteLocationFailed,
}

} // verus!
