//! The interface of everything that can be drawn on.

use vstd::prelude::*;
use crate::handler::handle_error::HandleError;
use crate::rendering::colors::TerminalColors;
use crate::shared::usize2d::{Coord, Usize2d};

verus! {

/// A surface with a cursor and a current pair of colours. Text is written at
/// the cursor, in the current colours, and shows once the handle is flushed.
pub trait Handle {
    /// Moves the cursor to `coord`.
    fn set_cursor_location(&mut self, coord: Usize2d) -> Result<(), HandleError>;

    /// Sets the colour in which text is written from now on.
    fn set_foreground_color(&mut self, color: TerminalColors) -> Result<(), HandleError>;

    /// Sets the colour behind the text that is written from now on.
    fn set_background_color(&mut self, color: TerminalColors) -> Result<(), HandleError>;

    /// Moves the cursor to `coord` and writes `buf` there.
    fn write_to_location(&mut self, buf: &[u8], coord: Coord) -> Result<usize, HandleError>;

    /// Writes `buf` at the cursor and says how many bytes were taken.
    fn write(&mut self, buf: &[u8]) -> Result<usize, HandleError>;

    /// Makes everything written so far visible.
    fn flush(&mut self) -> Result<(), HandleError>;
}

} // verus!
