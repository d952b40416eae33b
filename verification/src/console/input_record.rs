//! Decoded console input events.

use vstd::prelude::*;
use windows_sys::Win32::System::Console::KEY_EVENT;
use crate::console::errors::ConsoleControlErr;
use crate::coordinate::Coord;

verus! {

/// `KEY_EVENT`, the number that marks a raw input record as a keyboard
/// event: one.
#[verifier::external_body]
fn key_event_kind() -> (kind: u32)
    ensures
        kind == 1,
{
    KEY_EVENT
}

/// The kinds of input events.
#[derive(Clone, Copy, Debug, PartialEq, Eq, Structural)]
pub enum EventType {
    KeyEvent,
    MouseEvent,
}

/// The text shown for an event kind.
pub open spec fn event_type_label(kind: EventType) -> Seq<char> {
    match kind {
        EventType::KeyEvent => "key_pressed"@,
        EventType::MouseEvent => "mouse_thing"@,
    }
}

impl EventType {
    /// The human-readable name of the event kind.
    pub fn label(&self) -> (text: &'static str)
        ensures
            text@ == event_type_label(*self),
    {
        match self {
            EventType::KeyEvent => "key_pressed",
            EventType::MouseEvent => "mouse_thing",
        }
    }
}

/// One keyboard event: the character of the key, how often it repeated, and
/// whether the key went down (`true`) or came back up (`false`).
#[derive(Clone, Copy, Debug, PartialEq, Eq, Structural)]
pub struct KeyEvent {
    pub command: char,
    pub repreat_count: u16,
    pub is_down: bool,
}

/// One mouse event: where the pointer is, and the state of buttons, control
/// keys and flags as the console reports them.
#[derive(Clone, Copy, Debug, PartialEq, Eq, Structural)]
pub struct MouseEvent {
    pub pos: Coord,
    pub button_state: u32,
    pub ctrl_key_state: u32,
    pub flags: u32,
}

/// What an input record carries.
#[derive(Clone, Copy, Debug, PartialEq, Eq, Structural)]
pub enum InputEvent {
    Mouse(MouseEvent),
    Key(KeyEvent),
}

/// A decoded input record: its kind and what it carries.
#[derive(Clone, Copy, Debug, PartialEq, Eq, Structural)]
pub struct InputRecord {
    pub event_type: EventType,
    pub event: InputEvent,
}

/// Whether `code` is a character: a sixteen-bit code is one unless it is
/// half of a surrogate pair.
pub open spec fn is_character(code: u16) -> bool {
    !(0xD800 <= code <= 0xDFFF)
}

/// `char::from_u32` on a sixteen-bit code: the character with that code, or
/// nothing for half of a surrogate pair.
#[verifier::external_body]
fn character_of(code: u16) -> (character: Option<char>)
    ensures
        is_character(code) ==> character is Some && character->Some_0 as u32 == code,
        !is_character(code) ==> character is None,
{
    char::from_u32(code as u32)
}

/// Tests `is_character`.
pub fn is_key_code(code: u16) -> (valid: bool)
    ensures
        valid == is_character(code),
{
    !(0xD800 <= code && code <= 0xDFFF)
}

impl InputRecord {
    /// Decodes the fields of a raw console record. Only keyboard records
    /// are understood; every other kind is refused as the wrong event type.
    /// The key counts as down when the raw flag is exactly one.
    pub fn from_raw(event_type: u16, unicode_char: u16, repeat_count: u16, key_down: i32) -> (record:
        Result<InputRecord, ConsoleControlErr>)
        requires
            event_type == 1 ==> is_character(unicode_char),
        ensures
            event_type != 1 ==> record == Err::<InputRecord, ConsoleControlErr>(
                ConsoleControlErr::WrongEventType,
            ),
            event_type == 1 ==> {
                &&& record is Ok
                &&& record->Ok_0.event_type == EventType::KeyEvent
                &&& record->Ok_0.event is Key
                &&& record->Ok_0.event->Key_0.command as u32 == unicode_char
                &&& record->Ok_0.event->Key_0.repreat_count == repeat_count
                &&& record->Ok_0.event->Key_0.is_down == (key_down == 1)
            },
    {
        if event_type as u32 == key_event_kind() {
            match character_of(unicode_char) {
                Some(command) => Ok(
                    InputRecord {
                        event_type: EventType::KeyEvent,
                        event: InputEvent::Key(
                            KeyEvent { command, repreat_count: repeat_count, is_down: key_down == 1 },
                        ),
                    },
                ),
                None => Err(ConsoleControlErr::NoInputRead),
            }
        } else {
            Err(ConsoleControlErr::WrongEventType)
        }
    }
}

} // verus!
