//! Errors of the console.

use vstd::prelude::*;

verus! {

/// What went wrong while steering or reading the console.
#[derive(Clone, Copy, Debug, PartialEq, Eq, Structural)]
pub enum ConsoleControlErr {
    NoHandle,
    NoModeResponse,
    ModeTypeUnknown,
    SetModeFailed,
    NoInputRead,
    WrongEventType,
}

impl ConsoleControlErr {
    /// The text shown for any console error.
    pub fn label(&self) -> (text: &'static str)
        ensures
            text@ == "failed..."@,
    {
        "failed..."
    }
}

} // verus!
