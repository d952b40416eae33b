//! Writing into a row of cells at a position, padding where the row is short.

use vstd::prelude::*;

verus! {

/// The rows that a vector of rows holds.
pub open spec fn rows_of<T>(rows: Seq<Vec<T>>) -> Seq<Seq<T>> {
    Seq::new(rows.len(), |j: int| rows[j]@)
}

/// `count` copies of `value`.
pub open spec fn repeated<T>(value: T, count: int) -> Seq<T> {
    Seq::new(count as nat, |i: int| value)
}

/// `original`, lengthened to `len` with `fill` if it is shorter.
pub open spec fn padded<T>(original: Seq<T>, len: int, fill: T) -> Seq<T> {
    if len <= original.len() {
        original
    } else {
        original + repeated(fill, len - original.len())
    }
}

/// What is left of `original` from position `from` on.
pub open spec fn tail_from<T>(original: Seq<T>, from: int) -> Seq<T> {
    if original.len() > from {
        original.subrange(from, original.len() as int)
    } else {
        Seq::empty()
    }
}

/// `original` with `written` laid over it from position `index` on. A row
/// that ends before `index` is first lengthened to `index` with `fill`; what
/// `written` does not reach stays as it was.
pub open spec fn overwritten<T>(original: Seq<T>, written: Seq<T>, index: int, fill: T) -> Seq<T> {
    if original.len() <= index {
        padded(original, index, fill) + written
    } else {
        original.subrange(0, index) + written + tail_from(original, index + written.len())
    }
}

/// The length of an overwritten row: that of the original, or where the
/// written part ends, whichever is more.
pub proof fn overwritten_len<T>(original: Seq<T>, written: Seq<T>, index: int, fill: T)
    requires
        0 <= index,
    ensures
        overwritten(original, written, index, fill).len() == if original.len() >= index
            + written.len() {
            original.len() as int
        } else {
            index + written.len()
        },
{
}

/// An overwritten row holds `written` from position `index` on, `fill` in the
/// gap before it, and the original everywhere else.
pub proof fn overwritten_cells<T>(original: Seq<T>, written: Seq<T>, index: int, fill: T, at: int)
    requires
        0 <= index,
        0 <= at < overwritten(original, written, index, fill).len(),
    ensures
        overwritten(original, written, index, fill)[at] == if index <= at < index + written.len() {
            written[at - index]
        } else if at < original.len() {
            original[at]
        } else {
            fill
        },
{
}

/// Appends the cells of `source` from `from` up to, not including, `to`.
pub(crate) fn append_range<T: Copy>(out: &mut Vec<T>, source: &[T], from: usize, to: usize)
    requires
        from <= to <= source@.len(),
    ensures
        final(out)@ == old(out)@ + source@.subrange(from as int, to as int),
{
    let mut at: usize = from;
    while at < to
        invariant
            from <= at <= to <= source@.len(),
            out@ == old(out)@ + source@.subrange(from as int, at as int),
        decreases to - at,
    {
        out.push(source[at]);
        at = at + 1;
        assert(out@ =~= old(out)@ + source@.subrange(from as int, at as int));
    }
    assert(out@ =~= old(out)@ + source@.subrange(from as int, to as int));
}

/// Appends `count` copies of `value`.
pub(crate) fn append_repeated<T: Copy>(out: &mut Vec<T>, value: T, count: usize)
    ensures
        final(out)@ == old(out)@ + repeated(value, count as int),
{
    let mut done: usize = 0;
    while done < count
        invariant
            done <= count,
            out@ == old(out)@ + repeated(value, done as int),
        decreases count - done,
    {
        out.push(value);
        done = done + 1;
        assert(out@ =~= old(out)@ + repeated(value, done as int));
    }
}

/// Lengthens `original` to `len` cells by appending `default`. A row that is
/// already that long is left alone.
pub fn pad_vec<T: Copy>(original: &mut Vec<T>, len: usize, default: T)
    ensures
        final(original)@ == padded(old(original)@, len as int, default),
{
    if len < original.len() {
        return;
    }
    let missing = len - original.len();
    append_repeated(original, default, missing);
}

/// Lays `written` over `original` from position `index` on, without taking
/// either of them.
pub(crate) fn laid_over<T: Copy>(original: &[T], written: &[T], index: usize, default: T) -> (row:
    Vec<T>)
    requires
        index + written@.len() <= usize::MAX,
    ensures
        row@ == overwritten(original@, written@, index as int, default),
{
    let mut new_vec: Vec<T> = Vec::new();
    let written_len = written.len();
    if original.len() <= index {
        append_range(&mut new_vec, original, 0, original.len());
        assert(new_vec@ =~= original@);
        pad_vec(&mut new_vec, index, default);
        append_range(&mut new_vec, written, 0, written_len);
        assert(written@.subrange(0, written_len as int) =~= written@);
        return new_vec;
    }
    append_range(&mut new_vec, original, 0, index);
    append_range(&mut new_vec, written, 0, written_len);
    assert(written@.subrange(0, written_len as int) =~= written@);
    if original.len() > index + written_len {
        append_range(&mut new_vec, original, index + written_len, original.len());
    }
    assert(new_vec@ =~= overwritten(original@, written@, index as int, default));
    new_vec
}

/// Lays `len` copies of `value` over `original` from position `index` on,
/// without taking it.
pub(crate) fn filled_over<T: Copy>(
    original: &[T],
    value: T,
    index: usize,
    len: usize,
    default: T,
) -> (row: Vec<T>)
    requires
        index + len <= usize::MAX,
    ensures
        row@ == overwritten(original@, repeated(value, len as int), index as int, default),
{
    let mut new_vec: Vec<T> = Vec::new();
    if original.len() <= index {
        append_range(&mut new_vec, original, 0, original.len());
        assert(new_vec@ =~= original@);
        pad_vec(&mut new_vec, index, default);
        pad_vec(&mut new_vec, len + index, value);
        assert(new_vec@ =~= overwritten(
            original@,
            repeated(value, len as int),
            index as int,
            default,
        ));
        return new_vec;
    }
    append_range(&mut new_vec, original, 0, index);
    append_repeated(&mut new_vec, value, len);
    if original.len() > len + index {
        append_range(&mut new_vec, original, len + index, original.len());
    }
    assert(new_vec@ =~= overwritten(
        original@,
        repeated(value, len as int),
        index as int,
        default,
    ));
    new_vec
}

/// Lays `vec_to_write` over `original` from position `index` on and returns
/// the new row. A row that ends before `index` is first lengthened to `index`
/// with `default`.
pub fn write_vec_to_vec<T: Copy>(
    original: Vec<T>,
    vec_to_write: Vec<T>,
    index: usize,
    default: T,
) -> (row: Vec<T>)
    requires
        index + vec_to_write.len() <= usize::MAX,
    ensures
        row@ == overwritten(original@, vec_to_write@, index as int, default),
{
    laid_over(original.as_slice(), vec_to_write.as_slice(), index, default)
}

/// Lays `len` copies of `t_to_write` over `original` from position `index` on
/// and returns the new row. A row that ends before `index` is first
/// lengthened to `index` with `default`.
pub fn write_t_to_vec<T: Copy>(
    original: Vec<T>,
    t_to_write: T,
    index: usize,
    len: usize,
    default: T,
) -> (row: Vec<T>)
    requires
        index + len <= usize::MAX,
    ensures
        row@ == overwritten(original@, repeated(t_to_write, len as int), index as int, default),
{
    filled_over(original.as_slice(), t_to_write, index, len, default)
}

} // verus!
