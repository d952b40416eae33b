//! The commands that a panel takes.

use vstd::prelude::*;

verus! {

/// What a panel can be told to do.
#[derive(Clone, Copy, Debug, PartialEq, Eq, Structural)]
pub enum PanelCommandEnum {
    KillProcess,
    PauseProcess,
    ClearBuffer,
    ResizeBuffer,
}

} // verus!
