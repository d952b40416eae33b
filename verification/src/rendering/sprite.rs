//! A rectangular picture made of characters.

use vstd::prelude::*;
use vstd::string::StringExecFns;
use crate::rendering::colors::TerminalColors;
use crate::shared::shared_errors::SharedErrors;
use crate::shared::square::Square;
use crate::shared::usize2d::Coord;
use crate::utils::vec_u8_writer::BLANK;

verus! {

/// The byte of the letter that the default sprite is drawn with.
pub const MARK: u8 = 0x58;

/// A named picture of `height` rows of `width` characters, with a background
/// and a foreground colour plane.
pub struct Sprite {
    _name: String,
    pub(crate) width: usize,
    pub(crate) height: usize,
    chars: Vec<Vec<u8>>,
    _background_colors: Vec<Vec<TerminalColors>>,
    _foreground_colors: Vec<Vec<TerminalColors>>,
}

/// The position of `coord` within the range that begins at `start` and ends
/// at `end`, for a coordinate strictly between the two.
pub open spec fn index_in_range(coord: usize, start: usize, end: usize) -> Result<
    usize,
    SharedErrors,
> {
    if coord <= start {
        Err(SharedErrors::BeforeStart)
    } else if coord >= end {
        Err(SharedErrors::AfterEnd)
    } else {
        Ok((coord - start) as usize)
    }
}

/// The part of the span from `coord_start` to `coord_end` that lies within
/// the range from `range_start` to `range_end`, as first and last position
/// counted from `coord_start`; nothing if the two do not overlap.
pub open spec fn clipped(coord_start: int, coord_end: int, range_start: int, range_end: int) -> Option<
    (int, int),
> {
    if coord_start >= range_end || coord_end <= range_start {
        None
    } else {
        Some(
            (
                if range_start > coord_start {
                    range_start - coord_start
                } else {
                    0
                },
                if range_end < coord_end {
                    range_end - coord_start
                } else {
                    coord_end - coord_start
                },
            ),
        )
    }
}

/// The rows `first_row` to `last_row` of `rows`, each cut to the columns
/// `first_column` to `last_column`.
pub open spec fn cut_out(
    rows: Seq<Seq<u8>>,
    first_column: int,
    last_column: int,
    first_row: int,
    last_row: int,
) -> Seq<Seq<u8>> {
    Seq::new(
        (last_row - first_row + 1) as nat,
        |j: int| rows[first_row + j].subrange(first_column, last_column + 1),
    )
}

/// The byte rows that a vector of rows holds.
pub open spec fn byte_rows(rows: Seq<Vec<u8>>) -> Seq<Seq<u8>> {
    Seq::new(rows.len(), |j: int| rows[j]@)
}

impl Sprite {
    /// The characters of the sprite, row by row.
    pub closed spec fn rows(&self) -> Seq<Seq<u8>> {
        byte_rows(self.chars@)
    }

    /// The number of columns.
    pub closed spec fn columns(&self) -> usize {
        self.width
    }

    /// The number of rows.
    pub closed spec fn lines(&self) -> usize {
        self.height
    }

    #[verifier::type_invariant]
    spec fn shape_agrees(&self) -> bool {
        &&& self.chars.len() == self.height
        &&& forall|j: int| 0 <= j < self.chars.len() ==> (#[trigger] self.chars@[j]).len() == self.width
    }

    /// A sprite of the given size and content.
    pub fn new(
        name: String,
        width: usize,
        height: usize,
        chars: Vec<Vec<u8>>,
        background_colors: Vec<Vec<TerminalColors>>,
        foreground_colors: Vec<Vec<TerminalColors>>,
    ) -> (sprite: Self)
        requires
            chars.len() == height,
            forall|j: int| 0 <= j < chars.len() ==> (#[trigger] chars@[j]).len() == width,
        ensures
            sprite.rows() == byte_rows(chars@),
            sprite.columns() == width,
            sprite.lines() == height,
    {
        Sprite {
            _name: name,
            width,
            height,
            chars,
            _background_colors: background_colors,
            _foreground_colors: foreground_colors,
        }
    }

    /// The number of columns.
    pub fn width(&self) -> (width: usize)
        ensures
            width == self.columns(),
    {
        self.width
    }

    /// The number of rows.
    pub fn height(&self) -> (height: usize)
        ensures
            height == self.lines(),
    {
        self.height
    }

    /// The part of the sprite that falls into `area` when its top left
    /// corner stands at `coord`. A sprite that lies wholly outside of the
    /// area on either axis is out of bounds.
    pub fn get_content_for_area(&self, coord: Coord, area: Square) -> (content: Result<
        Vec<Vec<u8>>,
        SharedErrors,
    >)
        requires
            self.columns() >= 2,
            coord.x + self.columns() <= usize::MAX,
            area.top_left().x < area.bottom_right().x,
            clipped(
                coord.x as int,
                coord.x + self.columns() - 1,
                area.top_left().x as int,
                area.bottom_right().x as int,
            ) is Some ==> {
                &&& self.lines() >= 2
                &&& coord.y + self.lines() <= usize::MAX
                &&& area.top_left().y < area.bottom_right().y
            },
        ensures
            match (
                clipped(
                    coord.x as int,
                    coord.x + self.columns() - 1,
                    area.top_left().x as int,
                    area.bottom_right().x as int,
                ),
                clipped(
                    coord.y as int,
                    coord.y + self.lines() - 1,
                    area.top_left().y as int,
                    area.bottom_right().y as int,
                ),
            ) {
                (Some(across), Some(down)) => content is Ok && byte_rows(content->Ok_0@) == cut_out(
                    self.rows(),
                    across.0,
                    across.1,
                    down.0,
                    down.1,
                ),
                _ => content == Err::<Vec<Vec<u8>>, SharedErrors>(SharedErrors::OutOfBounds),
            },
    {
        proof {
            use_type_invariant(self);
        }
        let (area_top_left, area_bottom_right) = area.get_boundary();
        let (x_start, x_end) = match Self::get_indexes_in_range(
            coord.x,
            coord.x + self.width - 1,
            area_top_left.x,
            area_bottom_right.x,
        ) {
            Ok(indexes) => indexes,
            Err(error) => return Err(error),
        };
        let (y_start, y_end) = match Self::get_indexes_in_range(
            coord.y,
            coord.y + self.height - 1,
            area_top_left.y,
            area_bottom_right.y,
        ) {
            Ok(indexes) => indexes,
            Err(error) => return Err(error),
        };
        let ghost target = cut_out(
            self.rows(),
            x_start as int,
            x_end as int,
            y_start as int,
            y_end as int,
        );
        let mut content: Vec<Vec<u8>> = Vec::new();
        let mut y: usize = y_start;
        while y <= y_end
            invariant
                self.shape_agrees(),
                x_start < x_end < self.width,
                y_start <= y <= y_end + 1,
                y_end < self.height,
                target == cut_out(
                    self.rows(),
                    x_start as int,
                    x_end as int,
                    y_start as int,
                    y_end as int,
                ),
                content.len() == y - y_start,
                forall|j: int| 0 <= j < content.len() ==> (#[trigger] content@[j])@ == target[j],
            decreases y_end + 1 - y,
        {
            let mut row: Vec<u8> = Vec::new();
            let mut x: usize = x_start;
            while x <= x_end
                invariant
                    self.shape_agrees(),
                    x_start <= x <= x_end + 1,
                    x_end < self.width,
                    y < self.height,
                    row@ == self.chars@[y as int]@.subrange(x_start as int, x as int),
                decreases x_end + 1 - x,
            {
                row.push(self.chars[y][x]);
                x = x + 1;
                assert(row@ =~= self.chars@[y as int]@.subrange(x_start as int, x as int));
            }
            content.push(row);
            y = y + 1;
        }
        assert(byte_rows(content@) =~= target);
        Ok(content)
    }

    /// The first and last position, counted from `coord_start`, of the part
    /// of the span from `coord_start` to `coord_end` that lies within the
    /// range from `range_start` to `range_end`.
    pub fn get_indexes_in_range(
        coord_start: usize,
        coord_end: usize,
        range_start: usize,
        range_end: usize,
    ) -> (indexes: Result<(usize, usize), SharedErrors>)
        requires
            coord_start < coord_end,
            range_start < range_end,
        ensures
            match clipped(
                coord_start as int,
                coord_end as int,
                range_start as int,
                range_end as int,
            ) {
                Some(part) => indexes matches Ok(found) && found.0 == part.0 && found.1 == part.1,
                None => indexes == Err::<(usize, usize), SharedErrors>(SharedErrors::OutOfBounds),
            },
            indexes matches Ok(found) ==> found.0 < found.1 <= coord_end - coord_start,
    {
        if !(coord_start < range_end) {
            return Err(SharedErrors::OutOfBounds);
        }
        if !(coord_end > range_start) {
            return Err(SharedErrors::OutOfBounds);
        }
        let starting_index = match Self::get_index_in_range(range_start, coord_start, coord_end) {
            Ok(v) => v,
            Err(SharedErrors::BeforeStart) => 0,
            Err(SharedErrors::AfterEnd) => return Err(SharedErrors::OutOfBounds),
            Err(e) => return Err(e),
        };
        let ending_index = match Self::get_index_in_range(range_end, coord_start, coord_end) {
            Ok(v) => v,
            Err(SharedErrors::BeforeStart) => return Err(SharedErrors::OutOfBounds),
            Err(SharedErrors::AfterEnd) => coord_end - coord_start,
            Err(e) => return Err(e),
        };
        Ok((starting_index, ending_index))
    }

    /// The position of `coord` counted from `start`, for a coordinate that
    /// lies strictly between `start` and `end`.
    pub fn get_index_in_range(coord: usize, start: usize, end: usize) -> (index: Result<
        usize,
        SharedErrors,
    >)
        ensures
            index == index_in_range(coord, start, end),
    {
        if !(coord > start) {
            return Err(SharedErrors::BeforeStart);
        }
        if !(coord < end) {
            return Err(SharedErrors::AfterEnd);
        }
        Ok(coord - start)
    }
}

impl Default for Sprite {
    /// A cross of three by three characters in red and white.
    fn default() -> (sprite: Self)
        ensures
            sprite.columns() == 3,
            sprite.lines() == 3,
            sprite.rows() == seq![
                seq![MARK, BLANK, MARK],
                seq![BLANK, MARK, BLANK],
                seq![MARK, BLANK, MARK],
            ],
    {
        let chars: Vec<Vec<u8>> = vec![
            vec![MARK, BLANK, MARK],
            vec![BLANK, MARK, BLANK],
            vec![MARK, BLANK, MARK],
        ];
        let background_colors: Vec<Vec<TerminalColors>> = vec![
            vec![TerminalColors::Red, TerminalColors::White, TerminalColors::Red],
            vec![TerminalColors::White, TerminalColors::Red, TerminalColors::White],
            vec![TerminalColors::Red, TerminalColors::White, TerminalColors::Red],
        ];
        let foreground_colors: Vec<Vec<TerminalColors>> = vec![
            vec![TerminalColors::Red, TerminalColors::White, TerminalColors::Red],
            vec![TerminalColors::White, TerminalColors::Red, TerminalColors::White],
            vec![TerminalColors::Red, TerminalColors::White, TerminalColors::Red],
        ];
        let sprite = Sprite {
            _name: String::from_str("Default Sprite"),
            width: 3,
            height: 3,
            chars,
            _background_colors: background_colors,
            _foreground_colors: foreground_colors,
        };
        assert(sprite.rows() =~= seq![
            seq![MARK, BLANK, MARK],
            seq![BLANK, MARK, BLANK],
            seq![MARK, BLANK, MARK],
        ]);
        sprite
    }
}

} // verus!
