//! The escape sequences that steer a terminal.

use vstd::prelude::*;
use vstd::string::StringSliceAdditionalSpecFns;
use crate::rendering::colors::{color_code, TerminalColors};
use crate::terminal::decimal::decimal;
use crate::terminal::shared_writer::SharedWriter;

verus! {

/// The escape byte that begins every sequence.
pub const ESCAPE: u8 = 0x1b;

/// The byte that ends a line.
pub const NEWLINE: u8 = 0x0a;

/// The bytes that a text is written as.
pub open spec fn text_bytes(text: Seq<char>) -> Seq<u8> {
    vstd::utf8::encode_utf8(text)
}

/// `ESC [ 0 m`: back to the terminal's own colours and styles.
pub open spec fn reset_sequence() -> Seq<u8> {
    seq![ESCAPE, 0x5b, 0x30, 0x6d]
}

/// `ESC [ 2 J`: clear the whole screen.
pub open spec fn clear_screen_sequence() -> Seq<u8> {
    seq![ESCAPE, 0x5b, 0x32, 0x4a]
}

/// `ESC [ 2 K`: clear the line that the cursor is on.
pub open spec fn clear_line_sequence() -> Seq<u8> {
    seq![ESCAPE, 0x5b, 0x32, 0x4b]
}

/// `ESC [ ? 2 5 l`: hide the cursor.
pub open spec fn hide_cursor_sequence() -> Seq<u8> {
    seq![ESCAPE, 0x5b, 0x3f, 0x32, 0x35, 0x6c]
}

/// `ESC [ ? 2 5 h`: show the cursor.
pub open spec fn show_cursor_sequence() -> Seq<u8> {
    seq![ESCAPE, 0x5b, 0x3f, 0x32, 0x35, 0x68]
}

/// `ESC [ 4 8 ; 5 ; n m`: palette colour `n` behind the text.
pub open spec fn background_sequence(color: TerminalColors) -> Seq<u8> {
    seq![ESCAPE, 0x5b, 0x34, 0x38, 0x3b, 0x35, 0x3b] + decimal(color_code(color) as nat)
        + seq![0x6du8]
}

/// `ESC [ 3 8 ; 5 ; n m`: palette colour `n` for the text.
pub open spec fn foreground_sequence(color: TerminalColors) -> Seq<u8> {
    seq![ESCAPE, 0x5b, 0x33, 0x38, 0x3b, 0x35, 0x3b] + decimal(color_code(color) as nat)
        + seq![0x6du8]
}

/// `ESC [ y ; x H`: move the cursor to column `x` of row `y`.
pub open spec fn cursor_sequence(x: u16, y: u16) -> Seq<u8> {
    seq![ESCAPE, 0x5b] + decimal(y as nat) + seq![0x3bu8] + decimal(x as nat) + seq![0x48u8]
}

/// The sequence that clears the screen, framed by colour resets.
pub open spec fn clear_output() -> Seq<u8> {
    reset_sequence() + clear_screen_sequence() + reset_sequence()
}

/// The sequence that clears the cursor's line, framed by colour resets.
pub open spec fn clear_line_output() -> Seq<u8> {
    reset_sequence() + clear_line_sequence() + reset_sequence()
}

/// `char::encode_utf8`: the bytes that encode `c` in UTF-8.
#[verifier::external_body]
fn char_bytes(c: char) -> (bytes: Vec<u8>)
    ensures
        bytes@ == text_bytes(seq![c]),
{
    let mut buffer = [0u8; 4];
    c.encode_utf8(&mut buffer).as_bytes().to_vec()
}

/// A line as `writeln` writes it: the cursor's line is cleared, then comes
/// the text, then the line ends.
pub open spec fn line_output(text: Seq<u8>) -> Seq<u8> {
    clear_line_sequence() + text + seq![NEWLINE]
}

/// A terminal as seen from the writing side: every operation appends its
/// text or escape sequence to the writer.
pub struct Terminal {
    pub writer: SharedWriter,
}

impl Terminal {
    /// Everything written so far.
    pub open spec fn output(&self) -> Seq<u8> {
        self.writer@
    }

    /// A terminal that writes through `w`.
    pub fn init(w: SharedWriter) -> (terminal: Self)
        ensures
            terminal.writer == w,
    {
        Terminal { writer: w }
    }

    /// Writes `val` as it is.
    pub fn write(&mut self, val: String)
        ensures
            final(self).output() == old(self).output() + text_bytes(val@),
    {
        let _ = self.writer.write(val.as_str().as_bytes());
    }

    /// Writes `val` as it is.
    pub fn write_str(&mut self, val: &str)
        ensures
            final(self).output() == old(self).output() + text_bytes(val@),
    {
        let _ = self.writer.write(val.as_bytes());
    }

    /// Writes `number` in decimal.
    pub fn write_number(&mut self, number: u64)
        ensures
            final(self).output() == old(self).output() + decimal(number as nat),
    {
        let _ = self.writer.write_number(number);
    }

    /// Writes the character `c`.
    pub fn write_char(&mut self, c: char)
        ensures
            final(self).output() == old(self).output() + text_bytes(seq![c]),
    {
        let bytes = char_bytes(c);
        let _ = self.writer.write(bytes.as_slice());
    }

    /// Begins a line: clears the line that the cursor is on.
    pub fn start_line(&mut self)
        ensures
            final(self).output() == old(self).output() + clear_line_sequence(),
    {
        let clear: [u8; 4] = [ESCAPE, 0x5b, 0x32, 0x4b];
        let _ = self.writer.write(clear.as_slice());
        assert(self.output() =~= old(self).output() + clear_line_sequence());
    }

    /// Ends a line.
    pub fn end_line(&mut self)
        ensures
            final(self).output() == old(self).output() + seq![NEWLINE],
    {
        let end: [u8; 1] = [NEWLINE];
        let _ = self.writer.write(end.as_slice());
        assert(self.output() =~= old(self).output() + seq![NEWLINE]);
    }

    /// Clears the cursor's line, then writes `val` and ends the line.
    pub fn writeln(&mut self, val: String)
        ensures
            final(self).output() == old(self).output() + line_output(text_bytes(val@)),
    {
        self.start_line();
        let _ = self.writer.write(val.as_str().as_bytes());
        self.end_line();
        assert(self.output() =~= old(self).output() + line_output(text_bytes(val@)));
    }

    /// Pushes out what the writer holds back.
    pub fn flush(&mut self)
        ensures
            final(self).output() == old(self).output(),
    {
        let _ = self.writer.flush();
    }

    /// Claims the output for a moment. Nothing is written.
    pub fn lock(&mut self)
        ensures
            final(self).output() == old(self).output(),
    {
    }

    /// Clears the screen and leaves the colours reset.
    pub fn clear(&mut self)
        ensures
            final(self).output() == old(self).output() + clear_output(),
    {
        self.reset_colors();
        let clear: [u8; 4] = [ESCAPE, 0x5b, 0x32, 0x4a];
        let _ = self.writer.write(clear.as_slice());
        self.reset_colors();
        assert(self.output() =~= old(self).output() + clear_output());
    }

    /// Clears the cursor's line and leaves the colours reset.
    pub fn clear_line(&mut self)
        ensures
            final(self).output() == old(self).output() + clear_line_output(),
    {
        self.reset_colors();
        let clear: [u8; 4] = [ESCAPE, 0x5b, 0x32, 0x4b];
        let _ = self.writer.write(clear.as_slice());
        self.reset_colors();
        assert(self.output() =~= old(self).output() + clear_line_output());
    }

    /// Hides the cursor.
    pub fn hide_cursor(&mut self)
        ensures
            final(self).output() == old(self).output() + hide_cursor_sequence(),
    {
        let hide: [u8; 6] = [ESCAPE, 0x5b, 0x3f, 0x32, 0x35, 0x6c];
        let _ = self.writer.write(hide.as_slice());
        assert(self.output() =~= old(self).output() + hide_cursor_sequence());
    }

    /// Shows the cursor.
    pub fn show_cursor(&mut self)
        ensures
            final(self).output() == old(self).output() + show_cursor_sequence(),
    {
        let show: [u8; 6] = [ESCAPE, 0x5b, 0x3f, 0x32, 0x35, 0x68];
        let _ = self.writer.write(show.as_slice());
        assert(self.output() =~= old(self).output() + show_cursor_sequence());
    }

    /// Sets the colour behind the text that is written from now on.
    pub fn set_background(&mut self, color_code: TerminalColors)
        ensures
            final(self).output() == old(self).output() + background_sequence(color_code),
    {
        let lead: [u8; 7] = [ESCAPE, 0x5b, 0x34, 0x38, 0x3b, 0x35, 0x3b];
        let _ = self.writer.write(lead.as_slice());
        let _ = self.writer.write_number(color_code.code() as u64);
        let end: [u8; 1] = [0x6d];
        let _ = self.writer.write(end.as_slice());
        assert(self.output() =~= old(self).output() + background_sequence(color_code));
    }

    /// Sets the colour of the text that is written from now on.
    pub fn set_foreground(&mut self, color_code: TerminalColors)
        ensures
            final(self).output() == old(self).output() + foreground_sequence(color_code),
    {
        let lead: [u8; 7] = [ESCAPE, 0x5b, 0x33, 0x38, 0x3b, 0x35, 0x3b];
        let _ = self.writer.write(lead.as_slice());
        let _ = self.writer.write_number(color_code.code() as u64);
        let end: [u8; 1] = [0x6d];
        let _ = self.writer.write(end.as_slice());
        assert(self.output() =~= old(self).output() + foreground_sequence(color_code));
    }

    /// Moves the cursor to column `x` of row `y`.
    pub fn set_cursor_location(&mut self, x: u16, y: u16)
        ensures
            final(self).output() == old(self).output() + cursor_sequence(x, y),
    {
        let lead: [u8; 2] = [ESCAPE, 0x5b];
        let _ = self.writer.write(lead.as_slice());
        let _ = self.writer.write_number(y as u64);
        let middle: [u8; 1] = [0x3b];
        let _ = self.writer.write(middle.as_slice());
        let _ = self.writer.write_number(x as u64);
        let end: [u8; 1] = [0x48];
        let _ = self.writer.write(end.as_slice());
        assert(self.output() =~= old(self).output() + cursor_sequence(x, y));
    }

    /// Puts the terminal back to its own colours and styles.
    pub fn reset_colors(&mut self)
        ensures
            final(self).output() == old(self).output() + reset_sequence(),
    {
        let reset: [u8; 4] = [ESCAPE, 0x5b, 0x30, 0x6d];
        let _ = self.writer.write(reset.as_slice());
        assert(self.output() =~= old(self).output() + reset_sequence());
    }
}

} // verus!
