//! Errors that geometry helpers report.

use vstd::prelude::*;

verus! {

/// Why a coordinate or a range was not accepted.
#[derive(Clone, Copy, Debug, PartialEq, Eq, Structural)]
pub enum SharedErrors {
    BadCoordinate,
    OutOfBounds,
    ParsingFailure,
    BeforeStart,
    AfterEnd,
    NoError,
}

/// The name of an error.
pub open spec fn shared_error_label(error: SharedErrors) -> Seq<char> {
    match error {
        SharedErrors::BadCoordinate => "BadCoordinate"@,
        SharedErrors::OutOfBounds => "OutOfBounds"@,
        SharedErrors::ParsingFailure => "ParsingFailure"@,
        SharedErrors::BeforeStart => "BeforeStart"@,
        SharedErrors::AfterEnd => "AfterEnd"@,
        SharedErrors::NoError => "None"@,
    }
}

impl SharedErrors {
    /// The name of the error, as it is shown.
    pub fn label(&self) -> (text: &'static str)
        ensures
            text@ == shared_error_label(*self),
    {
        match self {
            SharedErrors::BadCoordinate => "BadCoordinate",
            SharedErrors::OutOfBounds => "OutOfBounds",
            SharedErrors::ParsingFailure => "ParsingFailure",
            SharedErrors::BeforeStart => "BeforeStart",
            SharedErrors::AfterEnd => "AfterEnd",
            SharedErrors::NoError => "None",
        }
    }
}

} // verus!
