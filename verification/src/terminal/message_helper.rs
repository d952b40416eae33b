//! Banners in large letters.

use vstd::prelude::*;
use vstd::string::StrSliceExecFns;
use crate::coordinate::Coord;
use crate::rendering::colors::TerminalColors;
use crate::terminal::formatter::{
    background_sequence, cursor_sequence, foreground_sequence, text_bytes, Terminal,
};
use crate::terminal::shared_writer::SharedWriter;

verus! {

/// Why a banner was not printed.
#[derive(Clone, Copy, Debug, PartialEq, Eq, Structural)]
pub enum MessageHelperErr {
    UnsupportedCharacters,
    MessageOutOfBounds,
    UnexpecterMessageLength,
}

/// The text shown for a banner error.
pub open spec fn message_error_label(error: MessageHelperErr) -> Seq<char> {
    match error {
        MessageHelperErr::UnsupportedCharacters => "Unsupported character"@,
        MessageHelperErr::MessageOutOfBounds => "Message out of bounds"@,
        MessageHelperErr::UnexpecterMessageLength => "Unexpected message length"@,
    }
}

impl MessageHelperErr {
    /// The human-readable form of the error.
    pub fn label(&self) -> (text: &'static str)
        ensures
            text@ == message_error_label(*self),
    {
        match self {
            MessageHelperErr::UnsupportedCharacters => "Unsupported character",
            MessageHelperErr::MessageOutOfBounds => "Message out of bounds",
            MessageHelperErr::UnexpecterMessageLength => "Unexpected message length",
        }
    }
}

/// The number of rows of a large letter.
pub const GLYPH_ROWS: usize = 5;

/// The number of columns of a large letter.
pub const GLYPH_COLUMNS: u16 = 7;

/// The large form of the letter A.
pub const A: [&'static str; 5] = ["  ███  ", " █   █ ", " █████ ", " █   █ ", " █   █ "];

/// The large form of the letter B.
pub const B: [&'static str; 5] = [" ████  ", " █   █ ", " ████  ", " █   █ ", " ████  "];

/// The large form of the letter C.
pub const C: [&'static str; 5] = ["  ███  ", " █   █ ", " █     ", " █   █ ", "  ███  "];

/// The large form of the letter D.
pub const D: [&'static str; 5] = [" ███   ", " █  █  ", " █   █ ", " █  █  ", " ███   "];

/// The large form of the letter E.
pub const E: [&'static str; 5] = [" █████ ", " █     ", " ████  ", " █     ", " █████ "];

/// The large form of the letter F.
pub const F: [&'static str; 5] = [" █████ ", " █     ", " ████  ", " █     ", " █     "];

/// The large form of the letter G.
pub const G: [&'static str; 5] = ["  ████ ", " █     ", " █  ██ ", " █   █ ", "  ███  "];

/// The large form of the letter H.
pub const H: [&'static str; 5] = [" █   █ ", " █   █ ", " █████ ", " █   █ ", " █   █ "];

/// The large form of the letter I.
pub const I: [&'static str; 5] = [" █████ ", "   █   ", "   █   ", "   █   ", " █████ "];

/// The large form of the letter J.
pub const J: [&'static str; 5] = [" █████ ", "     █ ", "     █ ", " █   █ ", "  ███  "];

/// The large form of the letter K.
pub const K: [&'static str; 5] = [" █   █ ", " █  █  ", " ███   ", " █  █  ", " █   █ "];

/// The large form of the letter L.
pub const L: [&'static str; 5] = [" █     ", " █     ", " █     ", " █     ", " █████ "];

/// The large form of the letter M.
pub const M: [&'static str; 5] = [" █   █ ", " ██ ██ ", " █ █ █ ", " █   █ ", " █   █ "];

/// The large form of the letter N.
pub const N: [&'static str; 5] = [" █   █ ", " ██  █ ", " █ █ █ ", " █  ██ ", " █   █ "];

/// The large form of the letter O.
pub const O: [&'static str; 5] = ["  ███  ", " █   █ ", " █   █ ", " █   █ ", "  ███  "];

/// The large form of the letter P.
pub const P: [&'static str; 5] = [" ████  ", " █   █ ", " ████  ", " █     ", " █     "];

/// The large form of the letter Q.
pub const Q: [&'static str; 5] = ["  ███  ", " █   █ ", " █   █ ", " █  ██ ", "  ████ "];

/// The large form of the letter R.
pub const R: [&'static str; 5] = [" ████  ", " █   █ ", " ████  ", " █  █  ", " █   █ "];

/// The large form of the letter S.
pub const S: [&'static str; 5] = ["  ████ ", " █     ", "  ███  ", "     █ ", " ████  "];

/// The large form of the letter T.
pub const T: [&'static str; 5] = [" █████ ", "   █   ", "   █   ", "   █   ", "   █   "];

/// The large form of the letter U.
pub const U: [&'static str; 5] = [" █   █ ", " █   █ ", " █   █ ", " █   █ ", "  ███  "];

/// The large form of the letter V.
pub const V: [&'static str; 5] = [" █   █ ", " █   █ ", " █   █ ", "  █ █  ", "   █   "];

/// The large form of the letter W.
pub const W: [&'static str; 5] = [" █   █ ", " █   █ ", " █ █ █ ", " ██ ██ ", " █   █ "];

/// The large form of the letter X.
pub const X: [&'static str; 5] = [" █   █ ", "  █ █  ", "   █   ", "  █ █  ", " █   █ "];

/// The large form of the letter Y.
pub const Y: [&'static str; 5] = [" █   █ ", "  █ █  ", "   █   ", "   █   ", "   █   "];

/// The large form of the letter Z.
pub const Z: [&'static str; 5] = [" █████ ", "     █ ", "   █   ", " █     ", " █████ "];

/// The large form of the digit 0.
pub const NUM_0: [&'static str; 5] = ["  ███  ", " █   █ ", " █   █ ", " █   █ ", "  ███  "];

/// The large form of the digit 1.
pub const NUM_1: [&'static str; 5] = ["   █   ", "  ██   ", "   █   ", "   █   ", "  ███  "];

/// The large form of the digit 2.
pub const NUM_2: [&'static str; 5] = ["  ███  ", " █   █ ", "    █  ", "   █   ", " █████ "];

/// The large form of the digit 3.
pub const NUM_3: [&'static str; 5] = ["  ███  ", " █   █ ", "    ██ ", " █   █ ", "  ███  "];

/// The large form of the digit 4.
pub const NUM_4: [&'static str; 5] = ["    ██ ", "   █ █ ", "  █  █ ", " █████ ", "     █ "];

/// The large form of the digit 5.
pub const NUM_5: [&'static str; 5] = [" █████ ", " █     ", " ████  ", "     █ ", " ████  "];

/// The large form of the digit 6.
pub const NUM_6: [&'static str; 5] = ["  ███  ", " █     ", " ████  ", " █   █ ", "  ███  "];

/// The large form of the digit 7.
pub const NUM_7: [&'static str; 5] = [" █████ ", "     █ ", "    █  ", "   █   ", "  █    "];

/// The large form of the digit 8.
pub const NUM_8: [&'static str; 5] = ["  ███  ", " █   █ ", "  ███  ", " █   █ ", "  ███  "];

/// The large form of the digit 9.
pub const NUM_9: [&'static str; 5] = ["  ███  ", " █   █ ", "  ████ ", "     █ ", "  ███  "];

/// The large form of a blank.
pub const SPACE: [&'static str; 5] = ["       ", "       ", "       ", "       ", "       "];

/// The large form of a character, for the characters that have one: the
/// blank, the lower case letters and the digits.
pub open spec fn glyph_of(c: char) -> Option<[&'static str; 5]> {
    match c {
        ' ' => Some(SPACE),
        'a' => Some(A),
        'b' => Some(B),
        'c' => Some(C),
        'd' => Some(D),
        'e' => Some(E),
        'f' => Some(F),
        'g' => Some(G),
        'h' => Some(H),
        'i' => Some(I),
        'j' => Some(J),
        'k' => Some(K),
        'l' => Some(L),
        'm' => Some(M),
        'n' => Some(N),
        'o' => Some(O),
        'p' => Some(P),
        'q' => Some(Q),
        'r' => Some(R),
        's' => Some(S),
        't' => Some(T),
        'u' => Some(U),
        'v' => Some(V),
        'w' => Some(W),
        'x' => Some(X),
        'y' => Some(Y),
        'z' => Some(Z),
        '0' => Some(NUM_0),
        '1' => Some(NUM_1),
        '2' => Some(NUM_2),
        '3' => Some(NUM_3),
        '4' => Some(NUM_4),
        '5' => Some(NUM_5),
        '6' => Some(NUM_6),
        '7' => Some(NUM_7),
        '8' => Some(NUM_8),
        '9' => Some(NUM_9),
        _ => None,
    }
}

/// Looks up the large form of a character.
pub fn glyph(c: char) -> (found: Option<[&'static str; 5]>)
    ensures
        found == glyph_of(c),
{
    match c {
        ' ' => Some(SPACE),
        'a' => Some(A),
        'b' => Some(B),
        'c' => Some(C),
        'd' => Some(D),
        'e' => Some(E),
        'f' => Some(F),
        'g' => Some(G),
        'h' => Some(H),
        'i' => Some(I),
        'j' => Some(J),
        'k' => Some(K),
        'l' => Some(L),
        'm' => Some(M),
        'n' => Some(N),
        'o' => Some(O),
        'p' => Some(P),
        'q' => Some(Q),
        'r' => Some(R),
        's' => Some(S),
        't' => Some(T),
        'u' => Some(U),
        'v' => Some(V),
        'w' => Some(W),
        'x' => Some(X),
        'y' => Some(Y),
        'z' => Some(Z),
        '0' => Some(NUM_0),
        '1' => Some(NUM_1),
        '2' => Some(NUM_2),
        '3' => Some(NUM_3),
        '4' => Some(NUM_4),
        '5' => Some(NUM_5),
        '6' => Some(NUM_6),
        '7' => Some(NUM_7),
        '8' => Some(NUM_8),
        '9' => Some(NUM_9),
        _ => None,
    }
}

/// The first character of the lower case form of `c`.
pub uninterp spec fn lowercase_first(c: char) -> char;

/// `char::to_lowercase`, of which the first character is taken: the lower
/// case form that the standard library assigns to `c`.
#[verifier::external_body]
fn to_lowercase_first(c: char) -> (lower: char)
    ensures
        lower == lowercase_first(c),
{
    c.to_lowercase().next().unwrap()
}

/// The large form in which `c` is printed: that of its lower case form.
pub open spec fn printed_glyph(c: char) -> Option<[&'static str; 5]> {
    glyph_of(lowercase_first(c))
}

/// How many characters at the start of `chars` have a large form.
pub open spec fn printable_prefix(chars: Seq<char>) -> nat
    decreases chars.len(),
{
    if chars.len() == 0 {
        0
    } else if printed_glyph(chars.first()) is None {
        0
    } else {
        1 + printable_prefix(chars.drop_first())
    }
}

/// Whether every character of `chars` has a large form.
pub open spec fn printable(chars: Seq<char>) -> bool {
    printable_prefix(chars) == chars.len()
}

/// Row `row` of the large forms of `chars`, one after the other.
pub open spec fn glyph_row(chars: Seq<char>, row: int) -> Seq<u8>
    decreases chars.len(),
{
    if chars.len() == 0 {
        Seq::empty()
    } else {
        glyph_row(chars.drop_last(), row) + text_bytes(
            printed_glyph(chars.last())->Some_0@[row]@,
        )
    }
}

/// What begins row `row` of a banner at `origin`: the cursor is placed and
/// the colours are set to red on white.
pub open spec fn row_start(origin: Coord, row: int) -> Seq<u8> {
    cursor_sequence(origin.x, (origin.y + row) as u16) + background_sequence(TerminalColors::White)
        + foreground_sequence(TerminalColors::Red)
}

/// The first `rows` rows of the banner for `chars` at `origin`.
pub open spec fn banner(chars: Seq<char>, origin: Coord, rows: int) -> Seq<u8>
    decreases rows,
{
    if rows <= 0 {
        Seq::empty()
    } else {
        banner(chars, origin, rows - 1) + row_start(origin, rows - 1) + glyph_row(chars, rows - 1)
    }
}

/// What is written for a message that holds a character without a large
/// form: the first row, up to that character.
pub open spec fn broken_banner(chars: Seq<char>, origin: Coord) -> Seq<u8> {
    row_start(origin, 0) + glyph_row(chars.take(printable_prefix(chars) as int), 0)
}

/// Where a banner of `byte_len` bytes begins so that `center` lies in its
/// middle: half the characters, seven columns each, to the left of the
/// centre and two rows above it, but never before column or row one. The
/// length counts as a sixteen-bit number.
pub open spec fn origin_around(byte_len: nat, center: Coord) -> Coord {
    let half = (byte_len % 0x10000) / 2;
    let width_to_subtract = half * GLYPH_COLUMNS;
    Coord {
        x: if center.x > width_to_subtract {
            (center.x - width_to_subtract) as u16
        } else {
            1
        },
        y: if center.y > 2 {
            (center.y - 2) as u16
        } else {
            1
        },
    }
}

/// Whether the half width of a banner of `byte_len` bytes can be counted in
/// sixteen bits.
pub open spec fn width_fits(byte_len: nat) -> bool {
    (byte_len % 0x10000) / 2 * GLYPH_COLUMNS <= u16::MAX
}

/// The characters before the first one without a large form all have one.
pub proof fn prefix_is_printable(chars: Seq<char>)
    ensures
        printable_prefix(chars) <= chars.len(),
        forall|i: int| 0 <= i < printable_prefix(chars) ==> printed_glyph(#[trigger] chars[i]) is Some,
        printable_prefix(chars) < chars.len() ==> printed_glyph(
            chars[printable_prefix(chars) as int],
        ) is None,
    decreases chars.len(),
{
    if chars.len() > 0 && printed_glyph(chars.first()) is Some {
        let rest = chars.drop_first();
        prefix_is_printable(rest);
        assert forall|i: int| 0 <= i < printable_prefix(chars) implies printed_glyph(
            #[trigger] chars[i],
        ) is Some by {
            if i > 0 {
                assert(chars[i] == rest[i - 1]);
            }
        }
        if printable_prefix(chars) < chars.len() {
            assert(chars[printable_prefix(chars) as int] == rest[printable_prefix(rest) as int]);
        }
    }
}

/// If the first `count` characters all have a large form and the next one
/// has none, `count` is the printable prefix.
pub proof fn prefix_found(chars: Seq<char>, count: int)
    requires
        0 <= count <= chars.len(),
        forall|i: int| 0 <= i < count ==> printed_glyph(#[trigger] chars[i]) is Some,
        count < chars.len() ==> printed_glyph(chars[count]) is None,
    ensures
        printable_prefix(chars) == count,
    decreases chars.len(),
{
    if chars.len() > 0 && count > 0 {
        let rest = chars.drop_first();
        assert(chars.first() == chars[0]);
        assert forall|i: int| 0 <= i < count - 1 implies printed_glyph(#[trigger] rest[i]) is Some by {
            assert(rest[i] == chars[i + 1]);
        }
        if count - 1 < rest.len() {
            assert(rest[count - 1] == chars[count]);
        }
        prefix_found(rest, count - 1);
    } else if chars.len() > 0 {
        assert(chars.first() == chars[0]);
    }
}

/// Prints messages as banners of large letters.
pub struct MessageHelper {
    pub terminal: Terminal,
}

impl MessageHelper {
    /// A helper that prints through `w`.
    pub fn init(w: SharedWriter) -> (helper: Self)
        ensures
            helper.terminal.writer == w,
    {
        MessageHelper { terminal: Terminal::init(w) }
    }

    /// Prints `message` as a banner with `center` in its middle.
    pub fn print_around_centerpoint(&mut self, message: String, center: Coord) -> (done: Result<
        (),
        MessageHelperErr,
    >)
        requires
            width_fits(text_bytes(message@).len()),
            center.y + 2 <= u16::MAX,
        ensures
            printable(message@) ==> done is Ok && final(self).terminal.output() == old(
                self,
            ).terminal.output() + banner(
                message@,
                origin_around(text_bytes(message@).len(), center),
                5,
            ),
            !printable(message@) ==> done == Err::<(), MessageHelperErr>(
                MessageHelperErr::UnsupportedCharacters,
            ) && final(self).terminal.output() == old(self).terminal.output() + broken_banner(
                message@,
                origin_around(text_bytes(message@).len(), center),
            ),
    {
        let origin = self.calculate_origin(message.clone(), center);
        if !(origin.x > 0 && origin.y > 0) {
            return Err(MessageHelperErr::MessageOutOfBounds);
        }
        self.print(message, origin)
    }

    /// Where a banner for `message` begins so that `center` lies in its
    /// middle.
    pub fn calculate_origin(&self, message: String, center: Coord) -> (origin: Coord)
        requires
            width_fits(text_bytes(message@).len()),
        ensures
            origin == origin_around(text_bytes(message@).len(), center),
            origin.x >= 1,
            origin.y >= 1,
    {
        let char_width: u16 = GLYPH_COLUMNS;
        let text = message.as_str();
        let byte_len = text.as_bytes().len();
        let char_count: u16 = (byte_len % 0x10000) as u16;
        let width: u16 = char_count / 2;
        let mut x_start: u16 = 1;
        assert(char_width == 7);
        assert(text@ == message@);
        assert(byte_len == text_bytes(message@).len());
        assert(char_count == text_bytes(message@).len() % 0x10000);
        assert(width == (text_bytes(message@).len() % 0x10000) / 2);
        assert(width * char_width == (text_bytes(message@).len() % 0x10000) / 2 * GLYPH_COLUMNS);
        let width_to_subtract: u16 = width * char_width;
        if center.x > width_to_subtract {
            x_start = center.x - width_to_subtract;
        }
        let mut y_start: u16 = 1;
        if center.y > 2 {
            y_start = center.y - 2;
        }
        Coord { x: x_start, y: y_start }
    }

    /// Prints `message` as a banner whose top left corner is `origin`: five
    /// rows, each begun by placing the cursor and setting red on white, then
    /// the row of every character's large form. A character without a large
    /// form ends the printing where it stands.
    pub fn print(&mut self, message: String, origin: Coord) -> (done: Result<(), MessageHelperErr>)
        requires
            origin.x > 0,
            origin.y > 0,
            origin.y + 4 <= u16::MAX,
        ensures
            printable(message@) ==> done is Ok && final(self).terminal.output() == old(
                self,
            ).terminal.output() + banner(message@, origin, 5),
            !printable(message@) ==> done == Err::<(), MessageHelperErr>(
                MessageHelperErr::UnsupportedCharacters,
            ) && final(self).terminal.output() == old(self).terminal.output() + broken_banner(
                message@,
                origin,
            ),
    {
        let text = message.as_str();
        let count = text.unicode_len();
        let ghost chars = message@;
        let ghost start = self.terminal.output();
        let mut row: usize = 0;
        while row < GLYPH_ROWS
            invariant
                row <= GLYPH_ROWS,
                origin.y + 4 <= u16::MAX,
                text@ == chars,
                chars == message@,
                start == old(self).terminal.output(),
                count == chars.len(),
                row > 0 ==> printable(chars),
                self.terminal.output() == start + banner(chars, origin, row as int),
            decreases GLYPH_ROWS - row,
        {
            let ghost row_begin = self.terminal.output();
            self.terminal.set_cursor_location(origin.x, row as u16 + origin.y);
            self.terminal.set_background(TerminalColors::White);
            self.terminal.set_foreground(TerminalColors::Red);
            assert(self.terminal.output() =~= row_begin + row_start(origin, row as int));
            let mut ind: usize = 0;
            while ind < count
                invariant
                    ind <= count,
                    row < GLYPH_ROWS,
                    text@ == chars,
                    chars == message@,
                    start == old(self).terminal.output(),
                    count == chars.len(),
                    row > 0 ==> printable(chars),
                    row_begin == start + banner(chars, origin, row as int),
                    forall|i: int| 0 <= i < ind ==> printed_glyph(#[trigger] chars[i]) is Some,
                    self.terminal.output() == row_begin + row_start(origin, row as int) + glyph_row(
                        chars.take(ind as int),
                        row as int,
                    ),
                decreases count - ind,
            {
                let current = to_lowercase_first(text.get_char(ind));
                let printable_char: [&'static str; 5] = match glyph(current) {
                    Some(found) => found,
                    None => {
                        proof {
                            prefix_found(chars, ind as int);
                            if row > 0 {
                                prefix_is_printable(chars);
                            }
                        }
                        assert(row == 0);
                        assert(row_begin =~= start);
                        return Err(MessageHelperErr::UnsupportedCharacters);
                    },
                };
                let printable_row: &str = printable_char[row];
                self.terminal.write_str(printable_row);
                proof {
                    let upto = chars.take(ind as int + 1);
                    assert(upto.drop_last() =~= chars.take(ind as int));
                    assert(upto.last() == chars[ind as int]);
                    assert(self.terminal.output() =~= row_begin + row_start(origin, row as int)
                        + glyph_row(upto, row as int));
                }
                ind = ind + 1;
            }
            self.terminal.flush();
            proof {
                assert(chars.take(count as int) =~= chars);
                prefix_found(chars, count as int);
                assert(self.terminal.output() =~= start + banner(chars, origin, row as int + 1));
            }
            row = row + 1;
        }
        Ok(())
    }
}

} // verus!
