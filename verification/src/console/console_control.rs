//! What one read of the console yields.

use vstd::prelude::*;
use crate::console::input_record::KeyEvent;

verus! {

/// A key as read from the console: its character, how often it repeated,
/// and whether it went down.
#[derive(Clone, Copy, Debug, PartialEq, Eq, Structural)]
pub struct ConsoleCommand {
    pub command: char,
    pub repreat_count: u16,
    pub is_down: bool,
}

impl ConsoleCommand {
    /// The same key as a key event.
    pub fn key_event(&self) -> (event: KeyEvent)
        ensures
            event == (KeyEvent {
                command: self.command,
                repreat_count: self.repreat_count,
                is_down: self.is_down,
            }),
    {
        KeyEvent {
            command: self.command,
            repreat_count: self.repreat_count,
            is_down: self.is_down,
        }
    }
}

} // verus!
