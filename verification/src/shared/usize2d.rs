//! A pair of machine-sized coordinates.

use vstd::prelude::*;
use vstd::string::StringExecFns;
use crate::coordinate::coord_label;
use crate::terminal::decimal::append_decimal;

verus! {

/// A point, or a size, in two dimensions.
#[derive(Clone, Copy, Debug, PartialEq, Eq, Structural)]
pub struct Usize2d {
    pub x: usize,
    pub y: usize,
}

/// A position in a buffer or on the screen.
pub type Coord = Usize2d;

impl Usize2d {
    /// The point `(x, y)`.
    pub fn new(x: usize, y: usize) -> (point: Self)
        ensures
            point.x == x,
            point.y == y,
    {
        Usize2d { x, y }
    }

    /// The point as it is shown: both axes by name.
    pub fn label(&self) -> (text: String)
        ensures
            text@ == coord_label(self.x as nat, self.y as nat),
    {
        let mut text = String::from_str("x: ");
        append_decimal(&mut text, self.x as u64);
        text.append(", y: ");
        append_decimal(&mut text, self.y as u64);
        text
    }
}

impl Default for Usize2d {
    /// The origin.
    fn default() -> (point: Self)
        ensures
            point == (Usize2d { x: 0, y: 0 }),
    {
        Usize2d { x: 0, y: 0 }
    }
}

impl vstd::std_specs::ops::AddSpecImpl for Usize2d {
    open spec fn obeys_add_spec() -> bool {
        true
    }

    open spec fn add_req(self, rhs: Usize2d) -> bool {
        self.x + rhs.x <= usize::MAX && self.y + rhs.y <= usize::MAX
    }

    open spec fn add_spec(self, rhs: Usize2d) -> Usize2d {
        Usize2d { x: (self.x + rhs.x) as usize, y: (self.y + rhs.y) as usize }
    }
}

impl core::ops::Add for Usize2d {
    type Output = Usize2d;

    /// The sum, axis by axis.
    fn add(self, rhs: Usize2d) -> (sum: Usize2d) {
        Usize2d { x: self.x + rhs.x, y: self.y + rhs.y }
    }
}

} // verus!
