//! The fixed configuration of a game and its viewport.

use vstd::prelude::*;
use crate::coordinate::Coord;

verus! {

/// Board dimensions, the size of one drawn cell, the pause between
/// generations in nanoseconds, and where on the terminal the board starts.
#[derive(Clone, Copy, Debug, PartialEq, Eq, Structural)]
pub struct ConwaysSettings {
    pub x_len: usize,
    pub y_len: usize,
    pub cell_view_width: u16,
    pub cell_view_height: u16,
    pub round_duration: u128,
    pub origin: Coord,
}

impl ConwaysSettings {
    /// The settings that `init` gives.
    pub open spec fn init_spec(x_len: usize, y_len: usize, duration: u128) -> Self {
        ConwaysSettings {
            x_len,
            y_len,
            cell_view_width: 3,
            cell_view_height: 2,
            round_duration: duration,
            origin: Coord { x: 0, y: 0 },
        }
    }

    /// Settings for a board of `x_len` by `y_len` cells, each drawn three
    /// columns wide and two rows high, with the viewport at the top left.
    #[verifier::when_used_as_spec(init_spec)]
    pub fn init(x_len: usize, y_len: usize, duration: u128) -> (settings: Self)
        ensures
            settings == Self::init_spec(x_len, y_len, duration),
    {
        ConwaysSettings {
            x_len,
            y_len,
            cell_view_width: 3,
            cell_view_height: 2,
            round_duration: duration,
            origin: Coord { x: 0, y: 0 },
        }
    }
}

} // verus!
