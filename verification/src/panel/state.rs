//! What a panel has been told so far.

use vstd::prelude::*;
use crate::panel::command_enum::PanelCommandEnum;
use crate::shared::usize2d::Usize2d;

verus! {

/// The flags that commands raise on a panel. A raised flag stays raised.
#[derive(Clone, Copy, Debug, PartialEq, Eq, Structural)]
pub struct PanelState {
    pub is_paused: bool,
    pub is_killed: bool,
    pub is_cleared: bool,
    pub new_buffer_size: Usize2d,
}

impl Default for PanelState {
    /// No flag raised.
    fn default() -> (state: Self)
        ensures
            state == PanelState::untouched(),
    {
        PanelState {
            is_paused: false,
            is_killed: false,
            is_cleared: false,
            new_buffer_size: Usize2d { x: 0, y: 0 },
        }
    }
}

impl PanelState {
    /// The state of a panel that was told nothing.
    pub open spec fn untouched() -> PanelState {
        PanelState {
            is_paused: false,
            is_killed: false,
            is_cleared: false,
            new_buffer_size: Usize2d { x: 0, y: 0 },
        }
    }

    /// The state after `command`: killing and pausing raise their flag, and
    /// both clearing and resizing raise the cleared flag.
    pub open spec fn after(self, command: PanelCommandEnum) -> PanelState {
        match command {
            PanelCommandEnum::KillProcess => PanelState { is_killed: true, ..self },
            PanelCommandEnum::PauseProcess => PanelState { is_paused: true, ..self },
            PanelCommandEnum::ClearBuffer => PanelState { is_cleared: true, ..self },
            PanelCommandEnum::ResizeBuffer => PanelState { is_cleared: true, ..self },
        }
    }

    /// Applies `command` to the state.
    pub fn process_command(&mut self, command: PanelCommandEnum)
        ensures
            *final(self) == old(self).after(command),
    {
        match command {
            PanelCommandEnum::KillProcess => self.is_killed = true,
            PanelCommandEnum::PauseProcess => self.is_paused = true,
            PanelCommandEnum::ClearBuffer => self.is_cleared = true,
            PanelCommandEnum::ResizeBuffer => self.is_cleared = true,
        }
    }
}

} // verus!
