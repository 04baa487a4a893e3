//! Reading scalar values from text: integers in decimal digits, booleans,
//! single characters and the unit value, each with the failure that the
//! text gives.

use crate::text::chars_of;
use crate::text::trimmed;
use vstd::prelude::*;

verus! {

/// Why a text is no integer of a type.
#[derive(Clone, Copy, Debug, PartialEq, Eq)]
pub enum IntErrorKind {
    /// The text is empty.
    Empty,
    /// A character is no decimal digit, or the text is a sign alone.
    InvalidDigit,
    /// The number is above the largest value of the type.
    PosOverflow,
    /// The number is below the smallest value of the type.
    NegOverflow,
}

/// The value of a decimal digit; `None` for any other character.
pub open spec fn digit_value(c: char) -> Option<int> {
    if '0' <= c <= '9' {
        Some(c as int - '0' as int)
    } else {
        None
    }
}

/// Reads the digits from left to right, starting from `start`: each
/// digit is added to ten times the value so far, or subtracted from it
/// for a negative number. The first character that is no digit, or the
/// first step that leaves the bounds, ends the reading with its failure.
pub open spec fn read_digits(digits: Seq<char>, start: int, positive: bool, min: int, max: int)
    -> Result<int, IntErrorKind>
    decreases digits.len(),
{
    if digits.len() == 0 {
        Ok(start)
    } else {
        match digit_value(digits[0]) {
            None => Err(IntErrorKind::InvalidDigit),
            Some(d) => {
                let next = if positive {
                    start * 10 + d
                } else {
                    start * 10 - d
                };
                if positive && (start * 10 > max || next > max) {
                    Err(IntErrorKind::PosOverflow)
                } else if !positive && (start * 10 < min || next < min) {
                    Err(IntErrorKind::NegOverflow)
                } else {
                    read_digits(digits.drop_first(), next, positive, min, max)
                }
            },
        }
    }
}

/// The integer that a text denotes in a type with the bounds `min` and
/// `max`: an optional sign, `-` only for a type with negative values, then
/// decimal digits and nothing else.
pub open spec fn integer_of(text: Seq<char>, min: int, max: int) -> Result<int, IntErrorKind> {
    if text.len() == 0 {
        Err(IntErrorKind::Empty)
    } else if text.len() == 1 && (text[0] == '+' || text[0] == '-') {
        Err(IntErrorKind::InvalidDigit)
    } else if text[0] == '+' {
        read_digits(text.drop_first(), 0, true, min, max)
    } else if text[0] == '-' && min < 0 {
        read_digits(text.drop_first(), 0, false, min, max)
    } else {
        read_digits(text, 0, true, min, max)
    }
}

/// Reading on from a later position gives the same result.
proof fn lemma_read_step(digits: Seq<char>, start: int, positive: bool, min: int, max: int)
    requires
        digits.len() > 0,
    ensures
        read_digits(digits, start, positive, min, max) == match digit_value(digits[0]) {
            None => Err::<int, IntErrorKind>(IntErrorKind::InvalidDigit),
            Some(d) => {
                let next = if positive {
                    start * 10 + d
                } else {
                    start * 10 - d
                };
                if positive && (start * 10 > max || next > max) {
                    Err(IntErrorKind::PosOverflow)
                } else if !positive && (start * 10 < min || next < min) {
                    Err(IntErrorKind::NegOverflow)
                } else {
                    read_digits(digits.drop_first(), next, positive, min, max)
                }
            },
        },
{
}

/// Reads an integer between `min` and `max` from a text.
pub fn parse_integer(text: &str, min: i128, max: i128) -> (r: Result<i128, IntErrorKind>)
    requires
        min <= 0 <= max,
        -0x8000_0000_0000_0000_0000 <= min,
        max <= 0x8000_0000_0000_0000_0000,
    ensures
        match r {
            Ok(value) => integer_of(text@, min as int, max as int) == Ok::<int, IntErrorKind>(
                value as int,
            ),
            Err(kind) => integer_of(text@, min as int, max as int) == Err::<int, IntErrorKind>(kind),
        },
{
    let chars = chars_of(text);
    let n = chars.len();
    if n == 0 {
        return Err(IntErrorKind::Empty);
    }
    let first = chars[0];
    if n == 1 && (first == '+' || first == '-') {
        return Err(IntErrorKind::InvalidDigit);
    }
    let mut positive = true;
    let mut i: usize = 0;
    if first == '+' {
        i = 1;
    } else if first == '-' && min < 0 {
        positive = false;
        i = 1;
    }
    let ghost digits = if i == 1 {
        text@.drop_first()
    } else {
        text@
    };
    assert(digits =~= text@.skip(i as int));
    let mut value: i128 = 0;
    while i < n
        invariant
            i <= n,
            n == chars@.len(),
            chars@ == text@,
            min <= 0 <= max,
            -0x8000_0000_0000_0000_0000 <= min,
            max <= 0x8000_0000_0000_0000_0000,
            min <= value <= max,
            positive ==> value >= 0,
            !positive ==> value <= 0,
            integer_of(text@, min as int, max as int) == read_digits(
                text@.skip(i as int),
                value as int,
                positive,
                min as int,
                max as int,
            ),
        decreases n - i,
    {
        let c = chars[i];
        let ghost rest = text@.skip(i as int);
        proof {
            lemma_read_step(rest, value as int, positive, min as int, max as int);
            assert(rest[0] == c);
            assert(rest.drop_first() =~= text@.skip(i + 1));
        }
        if !(c >= '0' && c <= '9') {
            return Err(IntErrorKind::InvalidDigit);
        }
        let d: i128 = (c as u32 - '0' as u32) as i128;
        let scaled = value * 10;
        if positive {
            if scaled > max || scaled + d > max {
                return Err(IntErrorKind::PosOverflow);
            }
            value = scaled + d;
        } else {
            if scaled < min || scaled - d < min {
                return Err(IntErrorKind::NegOverflow);
            }
            value = scaled - d;
        }
        i += 1;
    }
    Ok(value)
}

/// The text that `Debug` writes for an integer failure.
pub open spec fn int_error_text(kind: IntErrorKind) -> Seq<char> {
    match kind {
        IntErrorKind::Empty => "ParseIntError { kind: Empty }"@,
        IntErrorKind::InvalidDigit => "ParseIntError { kind: InvalidDigit }"@,
        IntErrorKind::PosOverflow => "ParseIntError { kind: PosOverflow }"@,
        IntErrorKind::NegOverflow => "ParseIntError { kind: NegOverflow }"@,
    }
}

/// What `Debug` writes for an integer failure.
pub fn int_error_string(kind: IntErrorKind) -> (text: &'static str)
    ensures
        text@ == int_error_text(kind),
{
    match kind {
        IntErrorKind::Empty => "ParseIntError { kind: Empty }",
        IntErrorKind::InvalidDigit => "ParseIntError { kind: InvalidDigit }",
        IntErrorKind::PosOverflow => "ParseIntError { kind: PosOverflow }",
        IntErrorKind::NegOverflow => "ParseIntError { kind: NegOverflow }",
    }
}

/// The boolean that a text denotes: `true` or `false`, and nothing else.
pub open spec fn boolean_of(text: Seq<char>) -> Option<bool> {
    if text == "true"@ {
        Some(true)
    } else if text == "false"@ {
        Some(false)
    } else {
        None
    }
}

/// Reads a boolean from a text.
pub fn parse_boolean(text: &str) -> (r: Option<bool>)
    ensures
        r == boolean_of(text@),
{
    if crate::text::str_equal(text, "true") {
        Some(true)
    } else if crate::text::str_equal(text, "false") {
        Some(false)
    } else {
        None
    }
}

/// Whether a text stands for the unit value: it is blank, or `()` with
/// white space around it.
pub open spec fn is_unit_text(text: Seq<char>) -> bool {
    trimmed(text).len() == 0 || trimmed(text) == "()"@
}

/// Whether a text stands for the unit value.
pub fn parse_unit(text: &str) -> (r: bool)
    ensures
        r == is_unit_text(text@),
{
    let inner = crate::text::trim(text);
    inner.unicode_len() == 0 || crate::text::str_equal(inner, "()")
}

/// The message for a text that is no integer of the type `name`
/// with the given bounds; `None` where the text is one.
pub open spec fn integer_error_of(text: Seq<char>, min: int, max: int, name: Seq<char>)
    -> Option<Seq<char>> {
    match integer_of(text, min, max) {
        Ok(_) => None,
        Err(kind) => Some("Conversion error for "@ + name + ": "@ + int_error_text(kind)),
    }
}

/// Reads an integer of the type `name` with the given bounds; the
/// error is the message that names the type and the failure.
pub fn convert_integer(text: &str, min: i128, max: i128, name: &str) -> (r: Result<
    i128,
    String,
>)
    requires
        min <= 0 <= max,
        -0x8000_0000_0000_0000_0000 <= min,
        max <= 0x8000_0000_0000_0000_0000,
    ensures
        match r {
            Ok(value) => min <= value <= max && integer_of(text@, min as int, max as int) == Ok::<
                int,
                IntErrorKind,
            >(value as int),
            Err(e) => integer_error_of(text@, min as int, max as int, name@) == Some(e@),
        },
{
    match parse_integer(text, min, max) {
        Ok(value) => {
            proof {
                lemma_integer_in_bounds(text@, min as int, max as int);
            }
            Ok(value)
        },
        Err(kind) => Err(
            crate::text::join4("Conversion error for ", name, ": ", int_error_string(kind)),
        ),
    }
}

/// What is read lies within the bounds.
pub proof fn lemma_integer_in_bounds(text: Seq<char>, min: int, max: int)
    requires
        min <= 0 <= max,
    ensures
        integer_of(text, min, max) matches Ok(value) ==> min <= value <= max,
{
    if text.len() > 0 {
        lemma_digits_in_bounds(text.drop_first(), 0, true, min, max);
        lemma_digits_in_bounds(text.drop_first(), 0, false, min, max);
        lemma_digits_in_bounds(text, 0, true, min, max);
    }
}

/// What is read from a value within the bounds, on the side of its sign,
/// lies within the bounds.
pub proof fn lemma_digits_in_bounds(
    digits: Seq<char>,
    start: int,
    positive: bool,
    min: int,
    max: int,
)
    requires
        min <= start <= max,
        min <= 0 <= max,
        positive ==> start >= 0,
        !positive ==> start <= 0,
    ensures
        read_digits(digits, start, positive, min, max) matches Ok(value) ==> min <= value <= max,
    decreases digits.len(),
{
    if digits.len() > 0 {
        match digit_value(digits[0]) {
            None => {},
            Some(d) => {
                let next = if positive {
                    start * 10 + d
                } else {
                    start * 10 - d
                };
                if positive && (start * 10 > max || next > max) {
                } else if !positive && (start * 10 < min || next < min) {
                } else {
                    lemma_digits_in_bounds(digits.drop_first(), next, positive, min, max);
                }
            },
        }
    }
}

} // verus!
