//! The terminal's colour palette.

use vstd::prelude::*;

verus! {

/// A colour of the 256-colour palette, or the terminal's default.
#[derive(Clone, Copy, Debug, PartialEq, Eq, Structural)]
pub enum TerminalColors {
    LightGreen,
    Red,
    White,
    Black,
    HotPink,
    Default,
}

/// The palette number of a colour. The default colour has no palette entry
/// and is given the largest number.
pub open spec fn color_code(color: TerminalColors) -> u32 {
    match color {
        TerminalColors::LightGreen => 120,
        TerminalColors::Red => 160,
        TerminalColors::White => 231,
        TerminalColors::Black => 232,
        TerminalColors::HotPink => 200,
        TerminalColors::Default => 4294967295,
    }
}

/// The name of a colour.
pub open spec fn color_label(color: TerminalColors) -> Seq<char> {
    match color {
        TerminalColors::LightGreen => "LightGreen"@,
        TerminalColors::Red => "Red"@,
        TerminalColors::White => "White"@,
        TerminalColors::Black => "Black"@,
        TerminalColors::HotPink => "HotPink"@,
        TerminalColors::Default => "Default"@,
    }
}

impl TerminalColors {
    /// The palette number of the colour.
    pub fn code(&self) -> (number: u32)
        ensures
            number == color_code(*self),
    {
        match self {
            TerminalColors::LightGreen => 120,
            TerminalColors::Red => 160,
            TerminalColors::White => 231,
            TerminalColors::Black => 232,
            TerminalColors::HotPink => 200,
            TerminalColors::Default => 4294967295,
        }
    }

    /// The name of the colour, as it is shown.
    pub fn label(&self) -> (text: &'static str)
        ensures
            text@ == color_label(*self),
    {
        match self {
            TerminalColors::LightGreen => "LightGreen",
            TerminalColors::Red => "Red",
            TerminalColors::White => "White",
            TerminalColors::Black => "Black",
            TerminalColors::HotPink => "HotPink",
            TerminalColors::Default => "Default",
        }
    }
}

impl Default for TerminalColors {
    /// The terminal's own colour.
    fn default() -> (color: Self)
        ensures
            color == TerminalColors::Default,
    {
        TerminalColors::Default
    }
}

} // verus!
