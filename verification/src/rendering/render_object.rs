//! A sprite placed at a position.

use vstd::prelude::*;
use crate::rendering::sprite::{byte_rows, clipped, cut_out, Sprite};
use crate::shared::shared_errors::SharedErrors;
use crate::shared::square::Square;
use crate::shared::usize2d::{Coord, Usize2d};

verus! {

/// A sprite and the position of its top left corner.
pub struct RenderObject {
    coordinate: Coord,
    sprite: Sprite,
}

impl RenderObject {
    /// Where the top left corner of the sprite stands.
    pub closed spec fn location(&self) -> Coord {
        self.coordinate
    }

    /// The sprite that is placed.
    pub closed spec fn picture(&self) -> Sprite {
        self.sprite
    }

    /// Places `sprite` at `coord`.
    pub fn new(sprite: Sprite, coord: Coord) -> (object: Self)
        ensures
            object.location() == coord,
            object.picture() == sprite,
    {
        RenderObject { sprite, coordinate: coord }
    }

    /// The square that the object claims: from its position on, as many
    /// columns and as many rows as the sprite has columns.
    pub fn get_area(&self) -> (area: Square)
        requires
            self.picture().columns() >= 1,
            self.location().x + self.picture().columns() <= usize::MAX,
            self.location().y + self.picture().columns() <= usize::MAX,
        ensures
            area.top_left() == self.location(),
            area.bottom_right() == (Usize2d {
                x: (self.location().x + self.picture().columns() - 1) as usize,
                y: (self.location().y + self.picture().columns() - 1) as usize,
            }),
    {
        let width = self.sprite.width();
        Square::new(
            Coord::new(self.coordinate.x, self.coordinate.y),
            Coord::new(self.coordinate.x + width - 1, self.coordinate.y + width - 1),
        )
    }

    /// Where the top left corner of the sprite stands.
    pub fn get_location(&self) -> (coord: Coord)
        ensures
            coord == self.location(),
    {
        self.coordinate
    }

    /// The part of the sprite that falls into `clamp`. An object that lies
    /// wholly outside of it on either axis is out of bounds.
    pub fn get_content_to_write(&self, clamp: Square) -> (content: Result<
        Vec<Vec<u8>>,
        SharedErrors,
    >)
        requires
            self.picture().columns() >= 2,
            self.location().x + self.picture().columns() <= usize::MAX,
            clamp.top_left().x < clamp.bottom_right().x,
            clipped(
                self.location().x as int,
                self.location().x + self.picture().columns() - 1,
                clamp.top_left().x as int,
                clamp.bottom_right().x as int,
            ) is Some ==> {
                &&& self.picture().lines() >= 2
                &&& self.location().y + self.picture().lines() <= usize::MAX
                &&& clamp.top_left().y < clamp.bottom_right().y
            },
        ensures
            match (
                clipped(
                    self.location().x as int,
                    self.location().x + self.picture().columns() - 1,
                    clamp.top_left().x as int,
                    clamp.bottom_right().x as int,
                ),
                clipped(
                    self.location().y as int,
                    self.location().y + self.picture().lines() - 1,
                    clamp.top_left().y as int,
                    clamp.bottom_right().y as int,
                ),
            ) {
                (Some(across), Some(down)) => content is Ok && byte_rows(content->Ok_0@) == cut_out(
                    self.picture().rows(),
                    across.0,
                    across.1,
                    down.0,
                    down.1,
                ),
                _ => content == Err::<Vec<Vec<u8>>, SharedErrors>(SharedErrors::OutOfBounds),
            },
    {
        self.sprite.get_content_for_area(self.coordinate, clamp)
    }
}

} // verus!
