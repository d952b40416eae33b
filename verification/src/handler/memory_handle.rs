//! A handle that keeps the screen in memory.

use vstd::prelude::*;
use vstd::string::StringSliceAdditionalSpecFns;
use crate::handler::handle::Handle;
use crate::handler::handle_error::HandleError;
use crate::rendering::colors::TerminalColors;
use crate::shared::usize2d::{Coord, Usize2d};
use crate::terminal::formatter::NEWLINE;
use crate::utils::vec_t_writer::{filled_over, laid_over, overwritten, repeated, rows_of};
use crate::utils::vec_u8_writer::BLANK;

verus! {

/// A screen held in memory, behaving as a terminal would. Writes go to a
/// pending screen; a flush makes the pending screen the visible one. Each
/// screen has a text plane and two colour planes.
pub struct MemoryHandle {
    pub buffer: Vec<Vec<u8>>,
    pub buffer_temp: Vec<Vec<u8>>,
    pub foreground_color_buffer: Vec<Vec<TerminalColors>>,
    pub foreground_color_buffer_temp: Vec<Vec<TerminalColors>>,
    pub background_color_buffer: Vec<Vec<TerminalColors>>,
    pub background_color_buffer_temp: Vec<Vec<TerminalColors>>,
    pub current_cursor_location: Usize2d,
    pub current_background_color: TerminalColors,
    pub current_foreground_color: TerminalColors,
}

/// `rows`, with empty rows added until there are `len` of them.
pub open spec fn grown<T>(rows: Seq<Seq<T>>, len: int) -> Seq<Seq<T>> {
    if rows.len() >= len {
        rows
    } else {
        rows + Seq::new((len - rows.len()) as nat, |j: int| Seq::<T>::empty())
    }
}

/// The rows joined into one text, with a line end between any two of them.
pub open spec fn joined(rows: Seq<Seq<u8>>) -> Seq<u8>
    decreases rows.len(),
{
    if rows.len() == 0 {
        Seq::empty()
    } else if rows.len() == 1 {
        rows[0]
    } else {
        joined(rows.drop_last()) + seq![NEWLINE] + rows.last()
    }
}

/// `rows` after `written` was laid over row `y` from column `x` on, the
/// plane first grown to hold that row.
pub open spec fn plane_after<T>(rows: Seq<Seq<T>>, written: Seq<T>, x: int, y: int, fill: T) -> Seq<
    Seq<T>,
> {
    grown(rows, y + 1).update(y, overwritten(grown(rows, y + 1)[y], written, x, fill))
}

/// Adds empty rows until there are `len` of them.
fn grow_rows<T>(rows: &mut Vec<Vec<T>>, len: usize)
    ensures
        rows_of(final(rows)@) == grown(rows_of(old(rows)@), len as int),
        final(rows).len() >= len,
{
    if rows.len() >= len {
        return;
    }
    while rows.len() < len
        invariant
            old(rows).len() <= rows.len() <= len,
            rows_of(rows@) == grown(rows_of(old(rows)@), rows.len() as int),
        decreases len - rows.len(),
    {
        let ghost before = rows@;
        rows.push(Vec::new());
        assert(rows@.last()@ =~= Seq::<T>::empty());
        assert forall|j: int| 0 <= j < rows.len() implies #[trigger] rows_of(rows@)[j] == grown(
            rows_of(old(rows)@),
            rows.len() as int,
        )[j] by {
            if j < before.len() {
                assert(rows@[j] == before[j]);
                assert(rows_of(before)[j] == grown(rows_of(old(rows)@), before.len() as int)[j]);
            }
        }
        assert(rows_of(rows@) =~= grown(rows_of(old(rows)@), rows.len() as int));
    }
}

/// A copy of a plane.
fn copy_rows<T: Copy>(rows: &Vec<Vec<T>>) -> (copy: Vec<Vec<T>>)
    ensures
        rows_of(copy@) == rows_of(rows@),
{
    let mut copy: Vec<Vec<T>> = Vec::new();
    let mut y: usize = 0;
    while y < rows.len()
        invariant
            y <= rows.len(),
            copy.len() == y,
            forall|j: int| 0 <= j < y ==> (#[trigger] copy@[j])@ == rows@[j]@,
        decreases rows.len() - y,
    {
        let source = &rows[y];
        let mut row: Vec<T> = Vec::new();
        let mut x: usize = 0;
        while x < source.len()
            invariant
                x <= source.len(),
                row@ == source@.subrange(0, x as int),
            decreases source.len() - x,
        {
            row.push(source[x]);
            x = x + 1;
            assert(row@ =~= source@.subrange(0, x as int));
        }
        assert(row@ =~= source@);
        copy.push(row);
        y = y + 1;
    }
    assert(rows_of(copy@) =~= rows_of(rows@));
    copy
}

/// Whether two text planes hold the same rows.
fn same_text(left: &Vec<Vec<u8>>, right: &Vec<Vec<u8>>) -> (same: bool)
    ensures
        same == (rows_of(left@) == rows_of(right@)),
{
    if left.len() != right.len() {
        assert(rows_of(left@).len() != rows_of(right@).len());
        return false;
    }
    let mut y: usize = 0;
    while y < left.len()
        invariant
            y <= left.len() == right.len(),
            forall|j: int| 0 <= j < y ==> (#[trigger] left@[j])@ == right@[j]@,
        decreases left.len() - y,
    {
        let a = &left[y];
        let b = &right[y];
        if a.len() != b.len() {
            assert(rows_of(left@)[y as int].len() != rows_of(right@)[y as int].len());
            return false;
        }
        let mut x: usize = 0;
        while x < a.len()
            invariant
                x <= a.len() == b.len(),
                a@ == left@[y as int]@,
                b@ == right@[y as int]@,
                y < left.len() == right.len(),
                forall|i: int| 0 <= i < x ==> a@[i] == b@[i],
            decreases a.len() - x,
        {
            if a[x] != b[x] {
                assert(rows_of(left@)[y as int][x as int] != rows_of(right@)[y as int][x as int]);
                return false;
            }
            x = x + 1;
        }
        assert(a@ =~= b@);
        y = y + 1;
    }
    assert(rows_of(left@) =~= rows_of(right@));
    true
}

/// What a write of `buf` at the cursor changes: `buf` is laid over the
/// cursor's row of the pending text from the cursor's column on. In each
/// colour plane, the cursor's row is marked from the column where the text
/// would end if it began at the row's start, with as many copies of the
/// current colour as the cursor's column counts. Nothing else changes.
pub open spec fn wrote(before: MemoryHandle, after: MemoryHandle, buf: Seq<u8>) -> bool {
    let x = before.current_cursor_location.x as int;
    let y = before.current_cursor_location.y as int;
    &&& after.pending_text() == plane_after(before.pending_text(), buf, x, y, BLANK)
    &&& after.pending_background() == plane_after(
        before.pending_background(),
        repeated(before.current_background_color, x),
        buf.len() as int,
        y,
        TerminalColors::Default,
    )
    &&& after.pending_foreground() == plane_after(
        before.pending_foreground(),
        repeated(before.current_foreground_color, x),
        buf.len() as int,
        y,
        TerminalColors::Default,
    )
    &&& after.buffer == before.buffer
    &&& after.foreground_color_buffer == before.foreground_color_buffer
    &&& after.background_color_buffer == before.background_color_buffer
    &&& after.current_cursor_location == before.current_cursor_location
    &&& after.current_background_color == before.current_background_color
    &&& after.current_foreground_color == before.current_foreground_color
}

impl MemoryHandle {
    /// The handle with its cursor at `coord`.
    pub open spec fn moved_to(self, coord: Usize2d) -> MemoryHandle {
        MemoryHandle { current_cursor_location: coord, ..self }
    }

    /// The pending text plane.
    pub open spec fn pending_text(&self) -> Seq<Seq<u8>> {
        rows_of(self.buffer_temp@)
    }

    /// The pending background plane.
    pub open spec fn pending_background(&self) -> Seq<Seq<TerminalColors>> {
        rows_of(self.background_color_buffer_temp@)
    }

    /// The pending foreground plane.
    pub open spec fn pending_foreground(&self) -> Seq<Seq<TerminalColors>> {
        rows_of(self.foreground_color_buffer_temp@)
    }

    /// The visible text plane.
    pub open spec fn visible_text(&self) -> Seq<Seq<u8>> {
        rows_of(self.buffer@)
    }

    /// The visible background plane.
    pub open spec fn visible_background(&self) -> Seq<Seq<TerminalColors>> {
        rows_of(self.background_color_buffer@)
    }

    /// The visible foreground plane.
    pub open spec fn visible_foreground(&self) -> Seq<Seq<TerminalColors>> {
        rows_of(self.foreground_color_buffer@)
    }

    /// Whether `len` bytes can be written at the cursor: the cursor's row is
    /// not the last one that can be counted, and the text ends at a column
    /// that can be counted.
    pub open spec fn can_write(&self, len: int) -> bool {
        &&& self.current_cursor_location.y < usize::MAX
        &&& self.current_cursor_location.x + len <= usize::MAX
    }

    /// An empty screen with the cursor at the origin and default colours.
    pub fn new() -> (handle: Self)
        ensures
            handle.pending_text().len() == 0,
            handle.pending_background().len() == 0,
            handle.pending_foreground().len() == 0,
            handle.visible_text().len() == 0,
            handle.visible_background().len() == 0,
            handle.visible_foreground().len() == 0,
            handle.current_cursor_location == (Usize2d { x: 0, y: 0 }),
            handle.current_background_color == TerminalColors::Default,
            handle.current_foreground_color == TerminalColors::Default,
    {
        MemoryHandle {
            buffer: Vec::new(),
            buffer_temp: Vec::new(),
            foreground_color_buffer: Vec::new(),
            foreground_color_buffer_temp: Vec::new(),
            background_color_buffer: Vec::new(),
            background_color_buffer_temp: Vec::new(),
            current_cursor_location: Usize2d::new(0, 0),
            current_background_color: TerminalColors::Default,
            current_foreground_color: TerminalColors::Default,
        }
    }

    /// The text of the screen, rows joined by line ends. Before the first
    /// flush that shows anything the text is empty; after it, the text is
    /// that of the pending screen.
    pub fn get_buffer_content(&self) -> (content: Vec<u8>)
        ensures
            content@ == if self.visible_text().len() == 0 {
                Seq::<u8>::empty()
            } else {
                joined(self.pending_text())
            },
    {
        let mut result: Vec<u8> = Vec::new();
        if self.buffer.len() == 0 {
            return result;
        }
        let mut index: usize = 0;
        while index < self.buffer_temp.len()
            invariant
                index <= self.buffer_temp.len(),
                result@ == joined(self.pending_text().subrange(0, index as int)),
            decreases self.buffer_temp.len() - index,
        {
            let ghost before = result@;
            let ghost upto = self.pending_text().subrange(0, index as int + 1);
            if index > 0 {
                result.push(NEWLINE);
            }
            let row = &self.buffer_temp[index];
            let mut x: usize = 0;
            while x < row.len()
                invariant
                    x <= row.len(),
                    result@ == before + (if index > 0 {
                        seq![NEWLINE]
                    } else {
                        Seq::<u8>::empty()
                    }) + row@.subrange(0, x as int),
                decreases row.len() - x,
            {
                result.push(row[x]);
                x = x + 1;
                assert(result@ =~= before + (if index > 0 {
                    seq![NEWLINE]
                } else {
                    Seq::<u8>::empty()
                }) + row@.subrange(0, x as int));
            }
            proof {
                assert(row@.subrange(0, x as int) =~= row@);
                assert(upto.drop_last() =~= self.pending_text().subrange(0, index as int));
                assert(upto.last() == row@);
                if index == 0 {
                    assert(result@ =~= row@);
                }
                assert(result@ =~= joined(upto));
            }
            index = index + 1;
        }
        assert(self.pending_text().subrange(0, index as int) =~= self.pending_text());
        result
    }

    /// A copy of the visible background plane.
    pub fn get_background_colors(&self) -> (colors: Vec<Vec<TerminalColors>>)
        ensures
            rows_of(colors@) == self.visible_background(),
    {
        copy_rows(&self.background_color_buffer)
    }

    /// A copy of the visible foreground plane.
    pub fn get_foreground_colors(&self) -> (colors: Vec<Vec<TerminalColors>>)
        ensures
            rows_of(colors@) == self.visible_foreground(),
    {
        copy_rows(&self.foreground_color_buffer)
    }

    /// Whether the pending text differs from the visible text.
    pub fn need_to_flush(self) -> (needed: bool)
        ensures
            needed == (self.pending_text() != self.visible_text()),
    {
        !same_text(&self.buffer_temp, &self.buffer)
    }

    /// Adds `text` to the pending screen as a row of its own, below all
    /// others, whatever the cursor says.
    pub fn write_fmt(&mut self, text: &str)
        ensures
            final(self).pending_text() == old(self).pending_text().push(text.spec_bytes()),
            final(self).buffer == old(self).buffer,
            final(self).foreground_color_buffer == old(self).foreground_color_buffer,
            final(self).foreground_color_buffer_temp == old(self).foreground_color_buffer_temp,
            final(self).background_color_buffer == old(self).background_color_buffer,
            final(self).background_color_buffer_temp == old(self).background_color_buffer_temp,
            final(self).current_cursor_location == old(self).current_cursor_location,
            final(self).current_background_color == old(self).current_background_color,
            final(self).current_foreground_color == old(self).current_foreground_color,
    {
        let bytes = text.as_bytes();
        let mut formatted_string: Vec<u8> = Vec::new();
        let mut at: usize = 0;
        while at < bytes.len()
            invariant
                at <= bytes@.len(),
                formatted_string@ == bytes@.subrange(0, at as int),
            decreases bytes@.len() - at,
        {
            formatted_string.push(bytes[at]);
            at = at + 1;
            assert(formatted_string@ =~= bytes@.subrange(0, at as int));
        }
        assert(formatted_string@ =~= bytes@);
        self.buffer_temp.push(formatted_string);
        assert(self.pending_text() =~= old(self).pending_text().push(text.spec_bytes()));
    }
}

impl Handle for MemoryHandle {
    /// Moves the cursor. Nothing else changes, and this cannot fail.
    fn set_cursor_location(&mut self, coordinate: Usize2d) -> (done: Result<(), HandleError>)
        ensures
            done is Ok,
            *final(self) == (MemoryHandle { current_cursor_location: coordinate, ..*old(self) }),
    {
        self.current_cursor_location = coordinate;
        Ok(())
    }

    /// Sets the foreground colour. Nothing else changes, and this cannot fail.
    fn set_foreground_color(&mut self, color: TerminalColors) -> (done: Result<(), HandleError>)
        ensures
            done is Ok,
            *final(self) == (MemoryHandle { current_foreground_color: color, ..*old(self) }),
    {
        self.current_foreground_color = color;
        Ok(())
    }

    /// Sets the background colour. Nothing else changes, and this cannot fail.
    fn set_background_color(&mut self, color: TerminalColors) -> (done: Result<(), HandleError>)
        ensures
            done is Ok,
            *final(self) == (MemoryHandle { current_background_color: color, ..*old(self) }),
    {
        self.current_background_color = color;
        Ok(())
    }

    /// Moves the cursor to `coord` and writes `buf` there, as `write` does.
    /// The cursor stays at `coord` even if the write fails.
    fn write_to_location(&mut self, buf: &[u8], coord: Coord) -> (taken: Result<usize, HandleError>)
        ensures
            old(self).moved_to(coord).can_write(buf@.len() as int) ==> {
                &&& taken == Ok::<usize, HandleError>(buf@.len() as usize)
                &&& wrote(old(self).moved_to(coord), *final(self), buf@)
            },
            !old(self).moved_to(coord).can_write(buf@.len() as int) ==> {
                &&& taken == Err::<usize, HandleError>(HandleError::WriteFailed)
                &&& *final(self) == old(self).moved_to(coord)
            },
    {
        self.current_cursor_location = coord;
        self.write(buf)
    }

    /// Lays `buf` over the cursor's row of the pending text from the cursor's
    /// column on, growing the screen and padding the row with blanks as
    /// needed, and marks the colour planes for the same write. The cursor
    /// stays where it is. A write that would pass the last countable row or
    /// column fails and changes nothing.
    fn write(&mut self, buf: &[u8]) -> (taken: Result<usize, HandleError>)
        ensures
            old(self).can_write(buf@.len() as int) ==> {
                &&& taken == Ok::<usize, HandleError>(buf@.len() as usize)
                &&& wrote(*old(self), *final(self), buf@)
            },
            !old(self).can_write(buf@.len() as int) ==> {
                &&& taken == Err::<usize, HandleError>(HandleError::WriteFailed)
                &&& *final(self) == *old(self)
            },
    {
        let x = self.current_cursor_location.x;
        let y = self.current_cursor_location.y;
        let len_to_push = buf.len();
        if y == usize::MAX || len_to_push > usize::MAX - x {
            return Err(HandleError::WriteFailed);
        }
        let required_len = y + 1;
        grow_rows(&mut self.buffer_temp, required_len);
        grow_rows(&mut self.background_color_buffer_temp, required_len);
        grow_rows(&mut self.foreground_color_buffer_temp, required_len);
        let text_row = laid_over(self.buffer_temp[y].as_slice(), buf, x, BLANK);
        self.buffer_temp[y] = text_row;
        let background_row = filled_over(
            self.background_color_buffer_temp[y].as_slice(),
            self.current_background_color,
            len_to_push,
            x,
            TerminalColors::Default,
        );
        self.background_color_buffer_temp[y] = background_row;
        let foreground_row = filled_over(
            self.foreground_color_buffer_temp[y].as_slice(),
            self.current_foreground_color,
            len_to_push,
            x,
            TerminalColors::Default,
        );
        self.foreground_color_buffer_temp[y] = foreground_row;
        proof {
            assert(self.pending_text() =~= plane_after(
                old(self).pending_text(),
                buf@,
                x as int,
                y as int,
                BLANK,
            ));
            assert(self.pending_background() =~= plane_after(
                old(self).pending_background(),
                repeated(old(self).current_background_color, x as int),
                buf@.len() as int,
                y as int,
                TerminalColors::Default,
            ));
            assert(self.pending_foreground() =~= plane_after(
                old(self).pending_foreground(),
                repeated(old(self).current_foreground_color, x as int),
                buf@.len() as int,
                y as int,
                TerminalColors::Default,
            ));
        }
        Ok(len_to_push)
    }

    /// Makes the pending screen the visible one. This cannot fail.
    fn flush(&mut self) -> (done: Result<(), HandleError>)
        ensures
            done is Ok,
            final(self).visible_text() == old(self).pending_text(),
            final(self).visible_foreground() == old(self).pending_foreground(),
            final(self).visible_background() == old(self).pending_background(),
            final(self).buffer_temp == old(self).buffer_temp,
            final(self).foreground_color_buffer_temp == old(self).foreground_color_buffer_temp,
            final(self).background_color_buffer_temp == old(self).background_color_buffer_temp,
            final(self).current_cursor_location == old(self).current_cursor_location,
            final(self).current_background_color == old(self).current_background_color,
            final(self).current_foreground_color == old(self).current_foreground_color,
    {
        self.buffer = copy_rows(&self.buffer_temp);
        self.foreground_color_buffer = copy_rows(&self.foreground_color_buffer_temp);
        self.background_color_buffer = copy_rows(&self.background_color_buffer_temp);
        Ok(())
    }
}

} // verus!
