//! The wire format of the temperature sensor on the serial line.

use crate::uom::temp::{celsius_to_fahrenheit, clamp_tenths, Temperature, F};
use vstd::prelude::*;

verus! {

/// Whether `c` is one of the ten digits.
pub open spec fn is_digit(c: char) -> bool {
    '0' <= c <= '9'
}

/// The number that the digit `c` stands for.
pub open spec fn digit_value(c: char) -> int {
    c as int - '0' as int
}

/// The number that `text` spells in decimal digits, where it holds digits
/// alone and at least one.
pub open spec fn decimal(text: Seq<char>) -> Option<int>
    decreases text.len(),
{
    if text.len() == 0 || !is_digit(text.last()) {
        None
    } else if text.len() == 1 {
        Some(digit_value(text.last()))
    } else {
        match decimal(text.drop_last()) {
            Some(value) => Some(10 * value + digit_value(text.last())),
            None => None,
        }
    }
}

/// The number that `text` spells: decimal digits, with or without a sign
/// before them.
pub open spec fn signed_decimal(text: Seq<char>) -> Option<int> {
    if text.len() > 0 && text[0] == '-' {
        match decimal(text.drop_first()) {
            Some(value) => Some(-value),
            None => None,
        }
    } else if text.len() > 0 && text[0] == '+' {
        decimal(text.drop_first())
    } else {
        decimal(text)
    }
}

/// Where the first comma with a space behind it stands in `line`, at or
/// after `from`.
pub open spec fn find_separator(line: Seq<char>, from: int) -> Option<int>
    decreases line.len() - from,
{
    if from < 0 || from + 1 >= line.len() {
        None
    } else if line[from] == ',' && line[from + 1] == ' ' {
        Some(from)
    } else {
        find_separator(line, from + 1)
    }
}

/// Where the first space stands in `line`, at or after `from` and before `to`.
pub open spec fn find_space(line: Seq<char>, from: int, to: int) -> Option<int>
    decreases to - from,
{
    if from < 0 || from >= to || from >= line.len() {
        None
    } else if line[from] == ' ' {
        Some(from)
    } else {
        find_space(line, from + 1, to)
    }
}

/// The text of the first value in `line`: what stands between the first
/// space and the first comma with a space behind it.
pub open spec fn first_value(line: Seq<char>) -> Option<Seq<char>> {
    match find_separator(line, 0) {
        Some(end) => match find_space(line, 0, end) {
            Some(space) => Some(line.subrange(space + 1, end)),
            None => None,
        },
        None => None,
    }
}

/// The temperature that `line` reports, in tenths of a degree Fahrenheit.
///
/// The line names its first value, a space, the value in tenths of a degree
/// Celsius, and then a comma and a space before whatever follows, as in
/// `Temp 229, Humidity 345`.
pub open spec fn reading(line: Seq<char>) -> Option<int> {
    match first_value(line) {
        Some(text) => match signed_decimal(text) {
            Some(tenths) => Some(clamp_tenths(celsius_to_fahrenheit(clamp_tenths(tenths)))),
            None => None,
        },
        None => None,
    }
}

/// More than any count of tenths that a temperature can hold.
const DECIMAL_CAP: i32 = 100_000;

/// `value`, or `DECIMAL_CAP` where it is larger than that.
spec fn capped(value: int) -> int {
    if value < DECIMAL_CAP {
        value
    } else {
        DECIMAL_CAP as int
    }
}

/// The number that the characters of `line` from `from` up to `to` spell in
/// decimal digits, or `DECIMAL_CAP` where it is larger than that.
fn parse_decimal(line: &str, from: usize, to: usize) -> (res: Option<i32>)
    requires
        from <= to <= line@.len(),
    ensures
        match decimal(line@.subrange(from as int, to as int)) {
            Some(exact) => res matches Some(value) && value == capped(exact),
            None => res is None,
        },
        res matches Some(value) ==> 0 <= value <= DECIMAL_CAP,
{
    if from == to {
        return None;
    }
    let mut value: i32 = 0;
    let mut i: usize = from;
    while i < to
        invariant
            from <= i <= to <= line@.len(),
            0 <= value <= DECIMAL_CAP,
            i > from ==> decimal(line@.subrange(from as int, i as int)) is Some,
            i > from ==> value == capped(decimal(line@.subrange(from as int, i as int))->0),
            i == from ==> value == 0,
        decreases to - i,
    {
        let c = line.get_char(i);
        let ghost before = line@.subrange(from as int, i as int);
        let ghost after = line@.subrange(from as int, i + 1);
        proof {
            assert(after.last() == c);
            assert(after.drop_last() =~= before);
        }
        if c < '0' || c > '9' {
            proof {
                lemma_decimal_needs_digits(line@, from as int, i + 1, to as int);
            }
            return None;
        }
        let digit: i32 = (c as u32 - '0' as u32) as i32;
        let next: i32 = value * 10 + digit;
        value = if next < DECIMAL_CAP {
            next
        } else {
            DECIMAL_CAP
        };
        i += 1;
    }
    Some(value)
}

/// A text with a character that is no digit spells no number.
proof fn lemma_decimal_needs_digits(line: Seq<char>, from: int, at: int, to: int)
    requires
        0 <= from < at <= to <= line.len(),
        !is_digit(line[at - 1]),
    ensures
        decimal(line.subrange(from, to)) is None,
    decreases to - at,
{
    let text = line.subrange(from, to);
    if at == to {
        assert(text.last() == line[at - 1]);
    } else {
        lemma_decimal_needs_digits(line, from, at, to - 1);
        assert(text.drop_last() =~= line.subrange(from, to - 1));
    }
}

/// Where the first comma with a space behind it stands in `line`, which is
/// `len` characters long.
fn separator(line: &str, len: usize) -> (res: Option<usize>)
    requires
        line@.len() == len,
    ensures
        match find_separator(line@, 0) {
            Some(at) => res matches Some(found) && found == at && found + 1 < len,
            None => res is None,
        },
{
    let mut at: usize = 0;
    while len - at > 1
        invariant
            line@.len() == len,
            at <= len,
            find_separator(line@, 0) == find_separator(line@, at as int),
        decreases len - at,
    {
        if line.get_char(at) == ',' && line.get_char(at + 1) == ' ' {
            return Some(at);
        }
        at += 1;
    }
    None
}

/// Where the first space stands in `line` before `to`.
fn space_before(line: &str, to: usize) -> (res: Option<usize>)
    requires
        to <= line@.len(),
    ensures
        match find_space(line@, 0, to as int) {
            Some(at) => res matches Some(found) && found == at && found < to,
            None => res is None,
        },
{
    let mut at: usize = 0;
    while at < to
        invariant
            at <= to <= line@.len(),
            find_space(line@, 0, to as int) == find_space(line@, at as int, to as int),
        decreases to - at,
    {
        if line.get_char(at) == ' ' {
            return Some(at);
        }
        at += 1;
    }
    None
}

/// The number that the characters of `line` from `from` up to `to` spell,
/// with or without a sign, or the nearest of `DECIMAL_CAP` and its negative
/// where it lies beyond them.
fn parse_signed(line: &str, from: usize, to: usize) -> (res: Option<i32>)
    requires
        from <= to <= line@.len(),
    ensures
        match signed_decimal(line@.subrange(from as int, to as int)) {
            Some(exact) => res matches Some(value) && clamp_tenths(value as int) == clamp_tenths(
                exact,
            ),
            None => res is None,
        },
{
    let ghost text = line@.subrange(from as int, to as int);
    if from == to {
        return None;
    }
    let first = line.get_char(from);
    assert(text[0] == first);
    if first == '-' || first == '+' {
        assert(text.drop_first() =~= line@.subrange(from + 1, to as int));
        match parse_decimal(line, from + 1, to) {
            Some(value) => Some(
                if first == '-' {
                    -value
                } else {
                    value
                },
            ),
            None => None,
        }
    } else {
        parse_decimal(line, from, to)
    }
}

/// The temperature that a line from the sensor reports, or none where the
/// line is not of the sensor's form.
pub fn parse_temp(buffer: String) -> (res: Option<Temperature<F>>)
    ensures
        match reading(buffer@) {
            Some(tenths) => res matches Some(temp) && temp@ == tenths,
            None => res is None,
        },
{
    let line = buffer.as_str();
    let len = line.unicode_len();
    if let Some(end) = separator(line, len) {
        if let Some(space) = space_before(line, end) {
            if let Some(tenths) = parse_signed(line, space + 1, end) {
                return Some(Temperature::in_c(tenths).to_f());
            }
        }
    }
    None
}

} // verus!
