//! One character cell of a frame.

use vstd::prelude::*;
use crate::rendering::colors::TerminalColors;
use crate::utils::vec_t_writer::rows_of;

verus! {

/// A frame: rows of pixels.
pub type Frame = Vec<Vec<Pixel>>;

/// A character with the colours it is shown in.
#[derive(Clone, Copy, Debug, PartialEq, Eq, Structural)]
pub struct Pixel {
    pub char: char,
    pub background_color: TerminalColors,
    pub foreground_color: TerminalColors,
}

impl Default for Pixel {
    /// A blank in the terminal's own colours.
    fn default() -> (pixel: Self)
        ensures
            pixel == Pixel::blank(),
    {
        Pixel {
            char: ' ',
            background_color: TerminalColors::Default,
            foreground_color: TerminalColors::Default,
        }
    }
}

impl Pixel {
    /// A blank in the terminal's own colours.
    pub open spec fn blank() -> Pixel {
        Pixel {
            char: ' ',
            background_color: TerminalColors::Default,
            foreground_color: TerminalColors::Default,
        }
    }

    /// A pixel showing `char` in the given colours.
    pub fn new(char: char, background_color: TerminalColors, foreground_color: TerminalColors) -> (pixel:
        Self)
        ensures
            pixel == (Pixel { char, background_color, foreground_color }),
    {
        Pixel { char, background_color, foreground_color }
    }

    /// The same pixel showing another character.
    pub fn next(&self, char: char) -> (pixel: Self)
        ensures
            pixel == (Pixel { char, ..*self }),
    {
        Pixel {
            char,
            background_color: self.background_color,
            foreground_color: self.foreground_color,
        }
    }
}

/// A frame of `height` rows of `width` blank pixels.
pub open spec fn blank_rows(width: int, height: int) -> Seq<Seq<Pixel>> {
    Seq::new(height as nat, |y: int| Seq::new(width as nat, |x: int| Pixel::blank()))
}

/// Builds a frame of `height` rows of `width` blank pixels.
pub fn blank_frame(width: usize, height: usize) -> (frame: Frame)
    ensures
        rows_of(frame@) == blank_rows(width as int, height as int),
{
    let mut frame: Frame = Vec::new();
    let mut y: usize = 0;
    while y < height
        invariant
            y <= height,
            frame.len() == y,
            forall|j: int| 0 <= j < y ==> (#[trigger] frame@[j])@ == blank_rows(
                width as int,
                height as int,
            )[j],
        decreases height - y,
    {
        let mut row: Vec<Pixel> = Vec::new();
        let mut x: usize = 0;
        while x < width
            invariant
                x <= width,
                row.len() == x,
                forall|i: int| 0 <= i < x ==> #[trigger] row@[i] == Pixel::blank(),
            decreases width - x,
        {
            row.push(Pixel::default());
            x = x + 1;
        }
        assert(row@ =~= blank_rows(width as int, height as int)[y as int]);
        frame.push(row);
        y = y + 1;
    }
    assert(rows_of(frame@) =~= blank_rows(width as int, height as int));
    frame
}

} // verus!
