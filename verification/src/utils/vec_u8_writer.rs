//! Writing text into a row of bytes at a position.

use vstd::prelude::*;
use crate::utils::vec_t_writer::{overwritten, padded, tail_from};

verus! {

/// The byte of a blank.
pub const BLANK: u8 = 0x20;

/// Lengthens `original` to `length` bytes by appending blanks.
fn pad_vec_up_to(original: &mut Vec<u8>, length: usize)
    ensures
        final(original)@ == padded(old(original)@, length as int, BLANK),
{
    while original.len() < length
        invariant
            original@ == padded(old(original)@, original.len() as int, BLANK),
            old(original)@.len() <= original.len(),
            original.len() <= length || original.len() == old(original)@.len(),
        decreases length - original.len(),
    {
        original.push(BLANK);
        assert(original@ =~= padded(old(original)@, original.len() as int, BLANK));
    }
    assert(original@ =~= padded(old(original)@, length as int, BLANK));
}

/// Lays `string_to_write` over `original` from position `index` on, where
/// `index` lies within `original`.
fn overwrite_vec_from_index(original: Vec<u8>, string_to_write: Vec<u8>, index: usize) -> (row: Vec<
    u8,
>)
    requires
        index <= original.len(),
        index + string_to_write.len() <= usize::MAX,
    ensures
        row@ == original@.subrange(0, index as int) + string_to_write@ + tail_from(
            original@,
            index + string_to_write.len(),
        ),
{
    let mut new_vec: Vec<u8> = Vec::new();
    let mut at: usize = 0;
    while at < index
        invariant
            at <= index <= original.len(),
            new_vec@ == original@.subrange(0, at as int),
        decreases index - at,
    {
        new_vec.push(original[at]);
        at = at + 1;
        assert(new_vec@ =~= original@.subrange(0, at as int));
    }
    let added_len = string_to_write.len();
    let mut done: usize = 0;
    while done < added_len
        invariant
            done <= added_len == string_to_write.len(),
            new_vec@ == original@.subrange(0, index as int) + string_to_write@.subrange(
                0,
                done as int,
            ),
        decreases added_len - done,
    {
        new_vec.push(string_to_write[done]);
        done = done + 1;
        assert(new_vec@ =~= original@.subrange(0, index as int) + string_to_write@.subrange(
            0,
            done as int,
        ));
    }
    assert(string_to_write@.subrange(0, added_len as int) =~= string_to_write@);
    if original.len() > index + added_len {
        let mut rest: usize = index + added_len;
        while rest < original.len()
            invariant
                index + added_len <= rest <= original.len(),
                new_vec@ == original@.subrange(0, index as int) + string_to_write@
                    + original@.subrange(index + added_len, rest as int),
            decreases original.len() - rest,
        {
            new_vec.push(original[rest]);
            rest = rest + 1;
            assert(new_vec@ =~= original@.subrange(0, index as int) + string_to_write@
                + original@.subrange(index + added_len, rest as int));
        }
    }
    assert(new_vec@ =~= original@.subrange(0, index as int) + string_to_write@ + tail_from(
        original@,
        index + string_to_write.len(),
    ));
    new_vec
}

/// Lays `string_to_write` over `original` from position `index` on and
/// returns the new row. A row that ends before `index` is first lengthened
/// to `index` with blanks.
pub fn write_to_location(original: Vec<u8>, string_to_write: Vec<u8>, index: usize) -> (row: Vec<
    u8,
>)
    requires
        index + string_to_write.len() <= usize::MAX,
    ensures
        row@ == overwritten(original@, string_to_write@, index as int, BLANK),
{
    if original.len() <= index {
        let mut new_vec: Vec<u8> = original;
        pad_vec_up_to(&mut new_vec, index);
        let mut done: usize = 0;
        let ghost base = new_vec@;
        while done < string_to_write.len()
            invariant
                done <= string_to_write.len(),
                new_vec@ == base + string_to_write@.subrange(0, done as int),
            decreases string_to_write.len() - done,
        {
            new_vec.push(string_to_write[done]);
            done = done + 1;
            assert(new_vec@ =~= base + string_to_write@.subrange(0, done as int));
        }
        assert(string_to_write@.subrange(0, done as int) =~= string_to_write@);
        return new_vec;
    }
    overwrite_vec_from_index(original, string_to_write, index)
}

} // verus!
