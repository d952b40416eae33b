//! A position on the terminal.

use vstd::prelude::*;
use vstd::string::StringExecFns;
use crate::terminal::decimal::{append_decimal, decimal_text};

verus! {

/// A terminal position: `x` counts columns, `y` counts rows.
#[derive(Clone, Copy, Debug, PartialEq, Eq, Structural)]
pub struct Coord {
    pub x: u16,
    pub y: u16,
}

/// A position as it is shown: both axes by name.
pub open spec fn coord_label(x: nat, y: nat) -> Seq<char> {
    "x: "@ + decimal_text(x) + ", y: "@ + decimal_text(y)
}

impl Coord {
    /// The position as it is shown.
    pub fn label(&self) -> (text: String)
        ensures
            text@ == coord_label(self.x as nat, self.y as nat),
    {
        let mut text = String::from_str("x: ");
        append_decimal(&mut text, self.x as u64);
        text.append(", y: ");
        append_decimal(&mut text, self.y as u64);
        text
    }
}

} // verus!
