//! How the board is drawn.

use vstd::prelude::*;
use vstd::string::StringExecFns;

verus! {

/// `PRETTY` draws plain coloured blocks, `DEBUG` adds cell details and a
/// status panel.
#[derive(Clone, Copy, Debug, PartialEq, Eq, Structural)]
pub enum PrintMode {
    PRETTY,
    DEBUG,
}

/// The mode that a configuration word names, if it names one.
pub open spec fn mode_named(word: Seq<char>) -> Option<PrintMode> {
    if word == "pretty"@ || word == "PRETTY"@ {
        Some(PrintMode::PRETTY)
    } else if word == "debug"@ || word == "DEBUG"@ {
        Some(PrintMode::DEBUG)
    } else {
        None
    }
}

/// The message for a word that names no mode.
pub open spec fn rejection(word: Seq<char>) -> Seq<char> {
    "`"@ + word + "` is not a valid mode"@
}

/// The text shown for a mode in the debug panel.
pub open spec fn mode_label(mode: PrintMode) -> Seq<char> {
    match mode {
        PrintMode::DEBUG => "Debug"@,
        PrintMode::PRETTY => "Pretty"@,
    }
}

impl PrintMode {
    /// The other mode.
    pub open spec fn toggled(self) -> PrintMode {
        match self {
            PrintMode::DEBUG => PrintMode::PRETTY,
            PrintMode::PRETTY => PrintMode::DEBUG,
        }
    }

    /// Reads a mode from a configuration word: `pretty` or `debug`, all in
    /// lower case or all in upper case. Any other word is rejected with a
    /// message that quotes it.
    pub fn from_str(word: &str) -> (mode: Result<PrintMode, String>)
        ensures
            match mode_named(word@) {
                Some(named) => mode == Ok::<PrintMode, String>(named),
                None => mode is Err && mode->Err_0@ == rejection(word@),
            },
    {
        if str_equal(word, "pretty") || str_equal(word, "PRETTY") {
            Ok(PrintMode::PRETTY)
        } else if str_equal(word, "debug") || str_equal(word, "DEBUG") {
            Ok(PrintMode::DEBUG)
        } else {
            let mut message = String::from_str("`");
            message.append(word);
            message.append("` is not a valid mode");
            Err(message)
        }
    }

    /// The human-readable name of the mode.
    pub fn label(&self) -> (text: &'static str)
        ensures
            text@ == mode_label(*self),
    {
        match self {
            PrintMode::DEBUG => "Debug",
            PrintMode::PRETTY => "Pretty",
        }
    }
}

/// Whether two strings hold the same characters.
pub(crate) fn str_equal(left: &str, right: &str) -> (same: bool)
    ensures
        same == (left@ == right@),
{
    let a: String = left.to_owned();
    let b: String = right.to_owned();
    a == b
}

} // verus!
