//! The window itself.

use vstd::prelude::*;
use crate::shared::frame::{blank_frame, blank_rows, Pixel};
use crate::shared::usize2d::Usize2d;
use crate::utils::vec_t_writer::rows_of;
use crate::windows::command_enum::WindowCommandEnum;
use crate::windows::errors::WindowException;
use crate::windows::state::WindowState;

verus! {

/// Two frames of one size, and the corners between which they are shown.
pub struct Window {
    pub previous_frame: Vec<Vec<Pixel>>,
    pub next_frame: Vec<Vec<Pixel>>,
    pub top_left: Usize2d,
    pub bottom_right: Usize2d,
    pub state: WindowState,
}

impl Window {
    /// A window with blank frames of `size.y` rows of `size.x` pixels. The
    /// top left corner must lie strictly left of and strictly above the
    /// bottom right one; other corners are refused as bad coordinates.
    pub fn init(size: Usize2d, top_left: Usize2d, bottom_right: Usize2d) -> (window: Result<
        Self,
        WindowException,
    >)
        ensures
            !(top_left.x < bottom_right.x && top_left.y < bottom_right.y) ==> window is Err
                && window->Err_0 == WindowException::BadCoordinateException,
            top_left.x < bottom_right.x && top_left.y < bottom_right.y ==> {
                &&& window is Ok
                &&& window->Ok_0.top_left == top_left
                &&& window->Ok_0.bottom_right == bottom_right
                &&& window->Ok_0.state == WindowState::untouched()
                &&& rows_of(window->Ok_0.previous_frame@) == blank_rows(
                    size.x as int,
                    size.y as int,
                )
                &&& rows_of(window->Ok_0.next_frame@) == blank_rows(size.x as int, size.y as int)
            },
    {
        if !(top_left.x < bottom_right.x) {
            return Err(WindowException::BadCoordinateException);
        }
        if !(top_left.y < bottom_right.y) {
            return Err(WindowException::BadCoordinateException);
        }
        Ok(
            Window {
                previous_frame: blank_frame(size.x, size.y),
                next_frame: blank_frame(size.x, size.y),
                top_left,
                bottom_right,
                state: WindowState::default(),
            },
        )
    }

    /// One pass of the window's loop: applies the command that was waiting,
    /// if any, and says whether the window goes on. A killed window stops.
    pub fn run_step(&mut self, command: Option<WindowCommandEnum>) -> (goes_on: bool)
        ensures
            final(self).state == (match command {
                Some(given) => old(self).state.after(given),
                None => old(self).state,
            }),
            goes_on == !final(self).state.is_killed,
            final(self).previous_frame == old(self).previous_frame,
            final(self).next_frame == old(self).next_frame,
            final(self).top_left == old(self).top_left,
            final(self).bottom_right == old(self).bottom_right,
    {
        match command {
            Some(given) => self.state.process_command(given),
            None => {},
        }
        !self.state.is_killed
    }
}

} // verus!
