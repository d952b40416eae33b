//! Reading options from the command line.

use vstd::prelude::*;
use vstd::string::StrSliceExecFns;
use crate::conway::print_mode::{mode_named, str_equal, PrintMode};

verus! {

/// The value of a decimal digit; nothing for any other character.
pub open spec fn digit_value(c: char) -> Option<nat> {
    let code = c as u32;
    if 48 <= code <= 57 {
        Some((code - 48) as nat)
    } else {
        None
    }
}

/// The number that a run of decimal digits stands for; nothing if any of
/// the characters is no digit. The empty run stands for zero.
pub open spec fn digits_value(digits: Seq<char>) -> Option<nat>
    decreases digits.len(),
{
    if digits.len() == 0 {
        Some(0)
    } else {
        match (digits_value(digits.drop_last()), digit_value(digits.last())) {
            (Some(value), Some(digit)) => Some(value * 10 + digit),
            _ => None,
        }
    }
}

/// The digits of a number text: the text without the plus sign that may
/// stand before them.
pub open spec fn digits_of(text: Seq<char>) -> Seq<char> {
    if text.len() > 0 && text[0] == '+' {
        text.drop_first()
    } else {
        text
    }
}

/// The number that a text names, if it names one of at most `max`: the text
/// is an optional plus sign followed by at least one decimal digit and
/// nothing else.
pub open spec fn unsigned_named(text: Seq<char>, max: nat) -> Option<nat> {
    if digits_of(text).len() == 0 {
        None
    } else {
        match digits_value(digits_of(text)) {
            Some(value) => if value <= max {
                Some(value)
            } else {
                None
            },
            None => None,
        }
    }
}

/// The number that a text names as a machine-sized integer, if it names one.
pub open spec fn usize_named(text: Seq<char>) -> Option<usize> {
    match unsigned_named(text, usize::MAX as nat) {
        Some(value) => Some(value as usize),
        None => None,
    }
}

/// The number that a text names as a 64-bit integer, if it names one.
pub open spec fn u64_named(text: Seq<char>) -> Option<u64> {
    match unsigned_named(text, u64::MAX as nat) {
        Some(value) => Some(value as u64),
        None => None,
    }
}

/// A run of digits stands for at least as much as each of its beginnings,
/// and a beginning that holds something else than digits spoils the run.
pub proof fn digits_grow(digits: Seq<char>, count: int)
    requires
        0 <= count <= digits.len(),
        digits_value(digits) is Some,
    ensures
        digits_value(digits.take(count)) is Some,
        digits_value(digits.take(count))->Some_0 <= digits_value(digits)->Some_0,
    decreases digits.len(),
{
    if count == digits.len() {
        assert(digits.take(count) =~= digits);
    } else {
        assert(digits.drop_last().take(count) =~= digits.take(count));
        digits_grow(digits.drop_last(), count);
    }
}

/// Reads a number of at most `max` from `text`.
pub fn parse_unsigned(text: &str, max: u64) -> (parsed: Option<u64>)
    ensures
        match unsigned_named(text@, max as nat) {
            Some(value) => parsed == Some(value as u64),
            None => parsed is None,
        },
{
    let len = text.unicode_len();
    let mut i: usize = 0;
    if len > 0 && text.get_char(0) == '+' {
        i = 1;
    }
    if i == len {
        return None;
    }
    let start = i;
    let ghost digits = digits_of(text@);
    assert(digits =~= text@.subrange(start as int, len as int));
    let mut value: u64 = 0;
    while i < len
        invariant
            start <= i <= len,
            len == text@.len(),
            start <= 1,
            digits == text@.subrange(start as int, len as int),
            digits == digits_of(text@),
            digits.len() > 0,
            digits_value(digits.take(i - start)) == Some(value as nat),
            value <= max,
        decreases len - i,
    {
        let code: u32 = text.get_char(i) as u32;
        let ghost upto = digits.take(i - start + 1);
        proof {
            assert(upto.drop_last() =~= digits.take(i - start));
            assert(upto.last() == text@[i as int]);
        }
        if code < 48 || code > 57 {
            proof {
                assert(digits_value(upto) is None);
                if digits_value(digits) is Some {
                    digits_grow(digits, i - start + 1);
                }
            }
            return None;
        }
        let next: u128 = value as u128 * 10 + (code - 48) as u128;
        if next > max as u128 {
            proof {
                assert(digits_value(upto) == Some(next as nat));
                if digits_value(digits) is Some {
                    digits_grow(digits, i - start + 1);
                }
            }
            return None;
        }
        value = next as u64;
        i = i + 1;
    }
    assert(digits.take(len - start) =~= digits);
    Some(value)
}

/// Reads a machine-sized integer from `text`.
pub fn parse_usize(text: &str) -> (parsed: Option<usize>)
    ensures
        parsed == usize_named(text@),
{
    match parse_unsigned(text, usize::MAX as u64) {
        Some(value) => Some(value as usize),
        None => None,
    }
}

/// Reads a 64-bit integer from `text`.
pub fn parse_u64(text: &str) -> (parsed: Option<u64>)
    ensures
        parsed == u64_named(text@),
{
    parse_unsigned(text, u64::MAX)
}

/// What reading an option gave: the value to use, and how many of the
/// values given for the option could not be understood.
#[derive(Clone, Copy, Debug, PartialEq, Eq)]
pub struct ConfigRead<T> {
    pub value: T,
    pub warnings: usize,
}

/// The words of the command line.
pub open spec fn words_of(args: Seq<String>) -> Seq<Seq<char>> {
    Seq::new(args.len(), |i: int| args[i]@)
}

/// Whether the word at `at` is the option `arg` with a value behind it. The
/// first word is the program's name and is never an option.
pub open spec fn names_option(words: Seq<Seq<char>>, arg: Seq<char>, at: int) -> bool {
    1 <= at && at + 1 < words.len() && words[at] == arg
}

/// What each word means as a machine-sized integer.
pub open spec fn usize_meanings(words: Seq<Seq<char>>) -> Seq<Option<usize>> {
    Seq::new(words.len(), |i: int| usize_named(words[i]))
}

/// What each word means as a 64-bit integer.
pub open spec fn u64_meanings(words: Seq<Seq<char>>) -> Seq<Option<u64>> {
    Seq::new(words.len(), |i: int| u64_named(words[i]))
}

/// What each word means as a print mode.
pub open spec fn mode_meanings(words: Seq<Seq<char>>) -> Seq<Option<PrintMode>> {
    Seq::new(words.len(), |i: int| mode_named(words[i]))
}

/// The outcome of reading option `arg` from the first `upto` words, where
/// `meanings` tells what each word means as a value. Each
/// time the option appears with a value, that value replaces what was read
/// before: understood, it is the new value; not understood, the default is,
/// and a warning is due.
pub open spec fn read_upto<T>(
    words: Seq<Seq<char>>,
    arg: Seq<char>,
    default: T,
    meanings: Seq<Option<T>>,
    upto: int,
) -> (T, int)
    decreases upto,
{
    if upto <= 1 {
        (default, 0)
    } else {
        let before = read_upto(words, arg, default, meanings, upto - 1);
        if names_option(words, arg, upto - 1) {
            match meanings[upto] {
                Some(value) => (value, before.1),
                None => (default, before.1 + 1),
            }
        } else {
            before
        }
    }
}

/// Settles one appearance of an option: the value that was understood, or
/// the default with one more warning.
pub fn settle<T: Copy>(parsed: Option<T>, default: T, warnings: usize) -> (read: ConfigRead<T>)
    requires
        warnings < usize::MAX,
    ensures
        read.value == (match parsed {
            Some(value) => value,
            None => default,
        }),
        read.warnings == (match parsed {
            Some(_) => warnings as int,
            None => warnings + 1,
        }),
{
    match parsed {
        Some(value) => ConfigRead { value, warnings },
        None => ConfigRead { value: default, warnings: warnings + 1 },
    }
}

/// Reads a print mode from `text`.
pub fn parse_mode(text: &str) -> (parsed: Option<PrintMode>)
    ensures
        parsed == mode_named(text@),
{
    match PrintMode::from_str(text) {
        Ok(mode) => Some(mode),
        Err(_) => None,
    }
}

/// Reads option `arg` with the reader `parse`, whose results `meanings`
/// tells for each word.
fn read_with<T: Copy, F: Fn(&str) -> Option<T>>(
    args: &Vec<String>,
    arg: &str,
    default: T,
    parse: F,
    Ghost(meanings): Ghost<Seq<Option<T>>>,
) -> (read: ConfigRead<T>)
    requires
        meanings.len() == args.len(),
        forall|text: &str| call_requires(parse, (text,)),
        forall|text: &str, parsed: Option<T>, i: int|
            #![trigger call_ensures(parse, (text,), parsed), meanings[i]]
            0 <= i < args.len() && text@ == args[i]@ && call_ensures(parse, (text,), parsed)
                ==> parsed == meanings[i],
    ensures
        read.value == read_upto(words_of(args@), arg@, default, meanings, args@.len() as int).0,
        read.warnings == read_upto(
            words_of(args@),
            arg@,
            default,
            meanings,
            args@.len() as int,
        ).1,
{
    let ghost words = words_of(args@);
    let mut read = ConfigRead { value: default, warnings: 0 };
    let mut i: usize = 1;
    while i < args.len()
        invariant
            1 <= i,
            i <= args.len() || i == 1,
            words == words_of(args@),
            meanings.len() == args.len(),
            forall|text: &str| call_requires(parse, (text,)),
            forall|text: &str, parsed: Option<T>, j: int|
                #![trigger call_ensures(parse, (text,), parsed), meanings[j]]
                0 <= j < args.len() && text@ == args[j]@ && call_ensures(parse, (text,), parsed)
                    ==> parsed == meanings[j],
            i > args.len() ==> read.value == default && read.warnings == 0,
            read.warnings <= i,
            i <= args.len() ==> read.value == read_upto(words, arg@, default, meanings, i as int).0,
            i <= args.len() ==> read.warnings == read_upto(
                words,
                arg@,
                default,
                meanings,
                i as int,
            ).1,
        decreases args.len() - i,
    {
        if str_equal(args[i].as_str(), arg) && i + 1 < args.len() {
            assert(names_option(words, arg@, i as int));
            let parsed = parse(args[i + 1].as_str());
            assert(parsed == meanings[i + 1]);
            read = settle(parsed, default, read.warnings);
        } else {
            assert(!names_option(words, arg@, i as int));
        }
        i = i + 1;
    }
    read
}

/// Reads the machine-sized integer given for option `arg`. The last value
/// given counts; without one, or where it is no number, the default does.
pub fn read_config_usize(args: &Vec<String>, arg: &str, default: usize) -> (read: ConfigRead<usize>)
    ensures
        read.value == read_upto(
            words_of(args@),
            arg@,
            default,
            usize_meanings(words_of(args@)),
            args@.len() as int,
        ).0,
        read.warnings == read_upto(
            words_of(args@),
            arg@,
            default,
            usize_meanings(words_of(args@)),
            args@.len() as int,
        ).1,
{
    read_with(args, arg, default, parse_usize, Ghost(usize_meanings(words_of(args@))))
}

/// Reads the 64-bit integer given for option `arg`. The last value given
/// counts; without one, or where it is no number, the default does.
pub fn read_config_u64(args: &Vec<String>, arg: &str, default: u64) -> (read: ConfigRead<u64>)
    ensures
        read.value == read_upto(
            words_of(args@),
            arg@,
            default,
            u64_meanings(words_of(args@)),
            args@.len() as int,
        ).0,
        read.warnings == read_upto(
            words_of(args@),
            arg@,
            default,
            u64_meanings(words_of(args@)),
            args@.len() as int,
        ).1,
{
    read_with(args, arg, default, parse_u64, Ghost(u64_meanings(words_of(args@))))
}

/// Reads the print mode given for option `arg`. The last value given
/// counts; without one, or where it names no mode, the default does.
pub fn read_config_mode(args: &Vec<String>, arg: &str, default: PrintMode) -> (read: ConfigRead<
    PrintMode,
>)
    ensures
        read.value == read_upto(
            words_of(args@),
            arg@,
            default,
            mode_meanings(words_of(args@)),
            args@.len() as int,
        ).0,
        read.warnings == read_upto(
            words_of(args@),
            arg@,
            default,
            mode_meanings(words_of(args@)),
            args@.len() as int,
        ).1,
{
    read_with(args, arg, default, parse_mode, Ghost(mode_meanings(words_of(args@))))
}

} // verus!
