//! When the keyboard reader ends.

use vstd::prelude::*;
use crate::console::errors::ConsoleControlErr;
use crate::console::input_record::KeyEvent;

verus! {

/// The character of the key that ends the reading.
pub const QUIT_KEY: char = 'q';

/// Whether the keyboard reader stops after one turn: `read` is what the
/// console gave, and `sent` tells whether the key that was read could be
/// passed on. A failed read is passed over and the reader goes on. A key
/// that was read ends the reading if it could not be passed on, since nobody
/// listens any more, or if it is the quit key.
pub fn reader_stops(read: Result<KeyEvent, ConsoleControlErr>, sent: bool) -> (stop: bool)
    ensures
        stop == (read is Ok && (!sent || read->Ok_0.command == QUIT_KEY)),
{
    match read {
        Ok(key) => !sent || key.command == QUIT_KEY,
        Err(_) => false,
    }
}

} // verus!
