//! The input modes of the console and the flag words that encode them.

use vstd::prelude::*;
use windows_sys::Win32::System::Console::{
    ENABLE_ECHO_INPUT, ENABLE_LINE_INPUT, ENABLE_PROCESSED_INPUT,
};
use crate::console::errors::ConsoleControlErr;

verus! {

/// `ENABLE_ECHO_INPUT`, the flag for echoing typed characters: bit two of
/// the mode word.
#[verifier::external_body]
fn echo_input_flag() -> (flag: u32)
    ensures
        flag == 4,
{
    ENABLE_ECHO_INPUT
}

/// `ENABLE_LINE_INPUT`, the flag for line-wise input: bit one of the mode
/// word.
#[verifier::external_body]
fn line_input_flag() -> (flag: u32)
    ensures
        flag == 2,
{
    ENABLE_LINE_INPUT
}

/// `ENABLE_PROCESSED_INPUT`, the flag for system handling of control keys:
/// bit zero of the mode word.
#[verifier::external_body]
fn processed_input_flag() -> (flag: u32)
    ensures
        flag == 1,
{
    ENABLE_PROCESSED_INPUT
}

/// How the console treats input. `Cooked` is the normal mode with echo, line
/// input and processed control keys; `Uncooked` has none of the three;
/// `UncookedPartial` has some but not all.
#[derive(Clone, Copy, Debug, PartialEq, Eq, Structural)]
pub enum ConsoleMode {
    Cooked,
    UncookedPartial,
    Uncooked,
    Unknown,
}

/// The three flags that make the difference between the modes.
pub open spec fn cooking_flags() -> u32 {
    7u32
}

/// The text shown for a mode.
pub open spec fn console_mode_label(mode: ConsoleMode) -> Seq<char> {
    match mode {
        ConsoleMode::Uncooked => "Uncooked"@,
        ConsoleMode::UncookedPartial => "Partially Uncooked"@,
        ConsoleMode::Cooked => "Cooked"@,
        ConsoleMode::Unknown => "NOT FOUND"@,
    }
}

/// The mode that a flag word encodes.
pub open spec fn mode_of(word: u32) -> ConsoleMode {
    if word & cooking_flags() == cooking_flags() {
        ConsoleMode::Cooked
    } else if word & cooking_flags() == 0 {
        ConsoleMode::Uncooked
    } else {
        ConsoleMode::UncookedPartial
    }
}

/// The flag word `word` switched to `mode`: the three flags all set for
/// `Cooked`, all cleared for `Uncooked`, every other bit as it was.
pub open spec fn word_in_mode(word: u32, mode: ConsoleMode) -> u32 {
    match mode {
        ConsoleMode::Cooked => word | cooking_flags(),
        ConsoleMode::Uncooked => word & !cooking_flags(),
        _ => word,
    }
}

/// A word that was switched to a mode encodes that mode, and switching
/// leaves every bit outside of the three flags alone.
pub proof fn switched_word_has_mode(word: u32, mode: ConsoleMode)
    requires
        mode == ConsoleMode::Cooked || mode == ConsoleMode::Uncooked,
    ensures
        mode_of(word_in_mode(word, mode)) == mode,
        word_in_mode(word, mode) & !cooking_flags() == word & !cooking_flags(),
{
    assert((word | 7u32) & 7u32 == 7u32) by (bit_vector);
    assert((word & !7u32) & 7u32 == 0u32) by (bit_vector);
    assert((word | 7u32) & !7u32 == word & !7u32) by (bit_vector);
    assert((word & !7u32) & !7u32 == word & !7u32) by (bit_vector);
}

impl ConsoleMode {
    /// The flag word `current_mode` switched to `new_mode`, which is
    /// `Cooked` or `Uncooked`.
    pub fn update_mode(current_mode: u32, new_mode: Self) -> (word: u32)
        requires
            new_mode == ConsoleMode::Cooked || new_mode == ConsoleMode::Uncooked,
        ensures
            word == word_in_mode(current_mode, new_mode),
    {
        let mut mode = current_mode;
        match new_mode {
            ConsoleMode::Cooked => {
                mode = mode | echo_input_flag();
                mode = mode | line_input_flag();
                mode = mode | processed_input_flag();
                assert(((current_mode | 4u32) | 2u32) | 1u32 == current_mode | 7u32)
                    by (bit_vector);
            },
            ConsoleMode::Uncooked => {
                mode = mode & !echo_input_flag();
                mode = mode & !line_input_flag();
                mode = mode & !processed_input_flag();
                assert(((current_mode & !4u32) & !2u32) & !1u32 == current_mode & !7u32)
                    by (bit_vector);
            },
            _ => {},
        }
        mode
    }

    /// The mode that the flag word `current_mode` encodes. Every word
    /// encodes one, so this never fails.
    pub fn match_mode(current_mode: u32) -> (mode: Result<Self, ConsoleControlErr>)
        ensures
            mode == Ok::<ConsoleMode, ConsoleControlErr>(mode_of(current_mode)),
    {
        let x = current_mode;
        let echo = x & echo_input_flag();
        let processed = x & processed_input_flag();
        let line = x & line_input_flag();
        assert((x & 7u32 == 7u32) <==> (x & 4u32 != 0u32 && x & 1u32 != 0u32 && x & 2u32 != 0u32))
            by (bit_vector);
        assert((x & 7u32 == 0u32) <==> (x & 4u32 == 0u32 && x & 1u32 == 0u32 && x & 2u32 == 0u32))
            by (bit_vector);
        if echo != 0 && processed != 0 && line != 0 {
            Ok(ConsoleMode::Cooked)
        } else if echo == 0 && processed == 0 && line == 0 {
            Ok(ConsoleMode::Uncooked)
        } else if echo == 0 || processed == 0 || line == 0 {
            Ok(ConsoleMode::UncookedPartial)
        } else {
            Err(ConsoleControlErr::ModeTypeUnknown)
        }
    }

    /// The human-readable name of the mode.
    pub fn label(&self) -> (text: &'static str)
        ensures
            text@ == console_mode_label(*self),
    {
        match self {
            ConsoleMode::Uncooked => "Uncooked",
            ConsoleMode::UncookedPartial => "Partially Uncooked",
            ConsoleMode::Cooked => "Cooked",
            ConsoleMode::Unknown => "NOT FOUND",
        }
    }
}

} // verus!
