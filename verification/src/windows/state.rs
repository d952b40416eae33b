//! What a window has been told so far.

use vstd::prelude::*;
use crate::shared::usize2d::Usize2d;
use crate::windows::command_enum::WindowCommandEnum;

verus! {

/// The flags that commands raise on a window. A raised flag stays raised.
#[derive(Clone, Copy, Debug, PartialEq, Eq, Structural)]
pub struct WindowState {
    pub is_paused: bool,
    pub is_killed: bool,
    pub is_cleared: bool,
    pub new_buffer_size: Usize2d,
}

impl Default for WindowState {
    /// No flag raised.
    fn default() -> (state: Self)
        ensures
            state == WindowState::untouched(),
    {
        WindowState {
            is_paused: false,
            is_killed: false,
            is_cleared: false,
            new_buffer_size: Usize2d { x: 0, y: 0 },
        }
    }
}

impl WindowState {
    /// The state of a window that was told nothing.
    pub open spec fn untouched() -> WindowState {
        WindowState {
            is_paused: false,
            is_killed: false,
            is_cleared: false,
            new_buffer_size: Usize2d { x: 0, y: 0 },
        }
    }

    /// The state after `command`: killing and pausing raise their flag, and
    /// both clearing and resizing raise the cleared flag.
    pub open spec fn after(self, command: WindowCommandEnum) -> WindowState {
        match command {
            WindowCommandEnum::KillProcess => WindowState { is_killed: true, ..self },
            WindowCommandEnum::PauseProcess => WindowState { is_paused: true, ..self },
            WindowCommandEnum::ClearBuffer => WindowState { is_cleared: true, ..self },
            WindowCommandEnum::ResizeBuffer => WindowState { is_cleared: true, ..self },
        }
    }

    /// Applies `command` to the state.
    pub fn process_command(&mut self, command: WindowCommandEnum)
        ensures
            *final(self) == old(self).after(command),
    {
        match command {
            WindowCommandEnum::KillProcess => self.is_killed = true,
            WindowCommandEnum::PauseProcess => self.is_paused = true,
            WindowCommandEnum::ClearBuffer => self.is_cleared = true,
            WindowCommandEnum::ResizeBuffer => self.is_cleared = true,
        }
    }
}

} // verus!
