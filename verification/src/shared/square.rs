//! An axis-aligned rectangle of cells.

use vstd::prelude::*;
use vstd::string::StringExecFns;
use crate::coordinate::coord_label;
use crate::shared::usize2d::{Coord, Usize2d};

verus! {

/// A rectangle given by its corners, both of which belong to it. The
/// smallest rectangle is a single cell, with both corners equal.
#[derive(Clone, Copy, Debug)]
pub struct Square {
    top_left: Usize2d,
    bottom_right: Usize2d,
    top_right: Usize2d,
    bottom_left: Usize2d,
}

/// Whether two closed ranges share a point.
pub open spec fn ranges_meet(start: usize, end: usize, other_start: usize, other_end: usize) -> bool {
    other_end >= start && other_start <= end
}

impl Square {
    /// The corner with the smallest coordinates.
    pub closed spec fn top_left(&self) -> Usize2d {
        self.top_left
    }

    /// The corner with the largest coordinates.
    pub closed spec fn bottom_right(&self) -> Usize2d {
        self.bottom_right
    }

    #[verifier::type_invariant]
    spec fn corners_agree(&self) -> bool {
        &&& self.top_left.x <= self.bottom_right.x
        &&& self.top_left.y <= self.bottom_right.y
        &&& self.top_right == (Usize2d { x: self.bottom_right.x, y: self.top_left.y })
        &&& self.bottom_left == (Usize2d { x: self.top_left.x, y: self.bottom_right.y })
    }

    /// Whether `coordinate` lies within the square, borders included.
    pub open spec fn contains(&self, coordinate: Usize2d) -> bool {
        &&& self.top_left().x <= coordinate.x <= self.bottom_right().x
        &&& self.top_left().y <= coordinate.y <= self.bottom_right().y
    }

    /// Whether the two squares share a cell.
    pub open spec fn meets(&self, other: &Square) -> bool {
        &&& ranges_meet(
            self.top_left().x,
            self.bottom_right().x,
            other.top_left().x,
            other.bottom_right().x,
        )
        &&& ranges_meet(
            self.top_left().y,
            self.bottom_right().y,
            other.top_left().y,
            other.bottom_right().y,
        )
    }

    /// The square with the given corners.
    pub fn new(top_left: Usize2d, bottom_right: Usize2d) -> (square: Self)
        requires
            top_left.x <= bottom_right.x,
            top_left.y <= bottom_right.y,
        ensures
            square.top_left() == top_left,
            square.bottom_right() == bottom_right,
    {
        Square {
            top_left,
            top_right: Usize2d::new(bottom_right.x, top_left.y),
            bottom_right,
            bottom_left: Usize2d::new(top_left.x, bottom_right.y),
        }
    }

    /// Tests whether `coordinate` lies within the square, borders included.
    pub fn is_in_square(&self, coordinate: Usize2d) -> (inside: bool)
        ensures
            inside == self.contains(coordinate),
    {
        coordinate.x >= self.top_left.x && coordinate.x <= self.bottom_right.x && coordinate.y
            >= self.top_left.y && coordinate.y <= self.bottom_right.y
    }

    /// Tests whether the two squares share a cell.
    pub fn overlaps_with(&self, other: &Square) -> (overlaps: bool)
        ensures
            overlaps == self.meets(other),
    {
        !(other.bottom_right.x < self.top_left.x || other.top_left.x > self.bottom_right.x
            || other.bottom_right.y < self.top_left.y || other.top_left.y > self.bottom_right.y)
    }

    /// The number of columns of the square.
    pub fn width(&self) -> (width: usize)
        requires
            self.bottom_right().x - self.top_left().x < usize::MAX,
        ensures
            width == self.bottom_right().x - self.top_left().x + 1,
            width >= 1,
    {
        proof {
            use_type_invariant(self);
        }
        self.bottom_right.x - self.top_left.x + 1
    }

    /// The number of rows of the square.
    pub fn height(&self) -> (height: usize)
        requires
            self.bottom_right().y - self.top_left().y < usize::MAX,
        ensures
            height == self.bottom_right().y - self.top_left().y + 1,
            height >= 1,
    {
        proof {
            use_type_invariant(self);
        }
        self.bottom_right.y - self.top_left.y + 1
    }

    /// The square as it is shown: its two corners by name.
    pub open spec fn label_text(&self) -> Seq<char> {
        "[Square - (top-left: "@ + coord_label(
            self.top_left().x as nat,
            self.top_left().y as nat,
        ) + ", bottom-right: "@ + coord_label(
            self.bottom_right().x as nat,
            self.bottom_right().y as nat,
        ) + ")]"@
    }

    /// The square as it is shown.
    pub fn label(&self) -> (text: String)
        ensures
            text@ == self.label_text(),
    {
        let mut text = String::from_str("[Square - (top-left: ");
        let corner = self.top_left.label();
        text.append(corner.as_str());
        text.append(", bottom-right: ");
        let corner = self.bottom_right.label();
        text.append(corner.as_str());
        text.append(")]");
        text
    }

    /// The top left and the bottom right corner.
    pub fn get_boundary(&self) -> (corners: (Coord, Coord))
        ensures
            corners.0 == self.top_left(),
            corners.1 == self.bottom_right(),
            corners.0.x <= corners.1.x,
            corners.0.y <= corners.1.y,
    {
        proof {
            use_type_invariant(self);
        }
        (self.top_left, self.bottom_right)
    }
}

impl Default for Square {
    /// The single cell at the origin.
    fn default() -> (square: Self)
        ensures
            square.top_left() == (Usize2d { x: 0, y: 0 }),
            square.bottom_right() == (Usize2d { x: 0, y: 0 }),
    {
        Square::new(Usize2d::new(0, 0), Usize2d::new(0, 0))
    }
}

} // verus!
