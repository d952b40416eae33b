//! The commands that a window takes.

use vstd::prelude::*;

verus! {

/// What a window can be told to do.
#[derive(Clone, Copy, Debug, PartialEq, Eq, Structural)]
pub enum WindowCommandEnum {
    KillProcess,
    PauseProcess,
    ClearBuffer,
    ResizeBuffer,
}

} // verus!
