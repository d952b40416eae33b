//! The operator's intents, decoded from key presses.

use vstd::prelude::*;

verus! {

/// What the operator asked for. `NOMAPPING` stands for a key that means
/// nothing, `NONE` for the time before any key was pressed.
#[derive(Clone, Copy, Debug, PartialEq, Eq, Structural)]
pub enum Command {
    QUIT,
    RESET,
    PAUSEPLAY,
    TOGGLEMODE,
    TOGGLEFPS,
    MOVELEFT,
    MOVERIGHT,
    MOVEUP,
    MOVEDOWN,
    NOMAPPING,
    NONE,
}

/// The command bound to a key. Letters count in either case; every key that
/// is not listed maps to `NOMAPPING`.
pub open spec fn command_for(key: char) -> Command {
    if key == 'q' || key == 'Q' {
        Command::QUIT
    } else if key == 'm' || key == 'M' {
        Command::TOGGLEMODE
    } else if key == ' ' {
        Command::PAUSEPLAY
    } else if key == 'f' || key == 'F' {
        Command::TOGGLEFPS
    } else if key == 'w' || key == 'W' {
        Command::MOVEUP
    } else if key == 'a' || key == 'A' {
        Command::MOVELEFT
    } else if key == 's' || key == 'S' {
        Command::MOVEDOWN
    } else if key == 'd' || key == 'D' {
        Command::MOVERIGHT
    } else {
        Command::NOMAPPING
    }
}

/// The text shown for a command in the debug panel.
pub open spec fn command_label(command: Command) -> Seq<char> {
    match command {
        Command::QUIT => "Quit"@,
        Command::RESET => "Reset"@,
        Command::PAUSEPLAY => "Toggle pause"@,
        Command::TOGGLEMODE => "Toggle print mode"@,
        Command::TOGGLEFPS => "Toggle fps"@,
        Command::MOVELEFT => "Move the board left"@,
        Command::MOVERIGHT => "Move the board right"@,
        Command::MOVEUP => "Move the board up"@,
        Command::MOVEDOWN => "Move the board down"@,
        Command::NOMAPPING => "Key not mapped"@,
        Command::NONE => "NONE"@,
    }
}

impl Command {
    /// Decodes the character of a key-down event.
    pub fn decode(key: char) -> (command: Command)
        ensures
            command == command_for(key),
    {
        match key {
            'q' | 'Q' => Command::QUIT,
            'm' | 'M' => Command::TOGGLEMODE,
            ' ' => Command::PAUSEPLAY,
            'f' | 'F' => Command::TOGGLEFPS,
            'w' | 'W' => Command::MOVEUP,
            'a' | 'A' => Command::MOVELEFT,
            's' | 'S' => Command::MOVEDOWN,
            'd' | 'D' => Command::MOVERIGHT,
            _ => Command::NOMAPPING,
        }
    }

    /// The human-readable name of the command.
    pub fn label(&self) -> (text: &'static str)
        ensures
            text@ == command_label(*self),
    {
        match self {
            Command::QUIT => "Quit",
            Command::RESET => "Reset",
            Command::PAUSEPLAY => "Toggle pause",
            Command::TOGGLEMODE => "Toggle print mode",
            Command::TOGGLEFPS => "Toggle fps",
            Command::MOVELEFT => "Move the board left",
            Command::MOVERIGHT => "Move the board right",
            Command::MOVEUP => "Move the board up",
            Command::MOVEDOWN => "Move the board down",
            Command::NOMAPPING => "Key not mapped",
            Command::NONE => "NONE",
        }
    }
}

} // verus!
