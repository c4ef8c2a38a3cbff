//! The coordinate resolver: reading the position of a click out of what the
//! pointer picker printed.
//!
//! The picker prints one line, `<x>,<y> <more>`: two decimal numbers with
//! a comma between them, then a space and text that is not read. The
//! numbers are raw pixels, counted from zero; a position in a macro is half
//! of each. A negative number is no coordinate.

use vstd::prelude::*;
use vstd::utf8::valid_utf8;

verus! {

/// Why a click could not be given a position.
#[derive(Clone, Copy, Debug, PartialEq, Eq, Structural)]
pub enum ResolutionError {
    /// The picker could not be launched.
    PickerUnavailable,
    /// The picker's output is not valid UTF-8.
    InvalidUtf8,
    /// The output holds no space after the coordinates.
    MissingSpace,
    /// The text before the first space holds no comma.
    MissingComma,
    /// A coordinate is not a decimal number, is negative, or does not fit
    /// the coordinate type.
    InvalidNumber,
}

/// The byte of a space.
pub const SPACE: u8 = 0x20;

/// The byte of a comma.
pub const COMMA: u8 = 0x2c;

/// Whether `at` is where `wanted` first occurs in `bytes`.
pub open spec fn is_first_index_of(bytes: Seq<u8>, wanted: u8, at: int) -> bool {
    &&& 0 <= at < bytes.len()
    &&& bytes[at] == wanted
    &&& forall|j: int| 0 <= j < at ==> bytes[j] != wanted
}

/// Where `wanted` first occurs in `bytes`, if it occurs at all.
pub open spec fn first_index_of(bytes: Seq<u8>, wanted: u8) -> Option<int> {
    if exists|at: int| is_first_index_of(bytes, wanted, at) {
        Some(choose|at: int| is_first_index_of(bytes, wanted, at))
    } else {
        None
    }
}

/// Whether a byte is one of the ten decimal digits.
pub open spec fn is_digit(byte: u8) -> bool {
    0x30 <= byte <= 0x39
}

/// Whether `text` holds decimal digits only.
pub open spec fn all_digits(text: Seq<u8>) -> bool {
    forall|i: int| 0 <= i < text.len() ==> is_digit(#[trigger] text[i])
}

/// The number that a string of decimal digits stands for.
pub open spec fn digits_value(digits: Seq<u8>) -> nat
    decreases digits.len(),
{
    if digits.len() == 0 {
        0
    } else {
        digits_value(digits.drop_last()) * 10 + (digits.last() - 0x30) as nat
    }
}

/// Whether `text` starts with a plus or a minus sign.
pub open spec fn has_sign(text: Seq<u8>) -> bool {
    text.len() > 0 && (text[0] == 0x2b || text[0] == 0x2d)
}

/// The integer that `text` stands for: an optional sign, then one digit or
/// more, and nothing else.
pub open spec fn decimal_value(text: Seq<u8>) -> Option<int> {
    let digits = if has_sign(text) {
        text.skip(1)
    } else {
        text
    };
    if digits.len() == 0 || !all_digits(digits) {
        None
    } else if has_sign(text) && text[0] == 0x2d {
        Some(-(digits_value(digits) as int))
    } else {
        Some(digits_value(digits) as int)
    }
}

/// The coordinate that `text` stands for, if it is a decimal integer that
/// is not negative and fits in 32 bits.
pub open spec fn coordinate_value(text: Seq<u8>) -> Option<i32> {
    match decimal_value(text) {
        Some(value) => if 0 <= value <= i32::MAX {
            Some(value as i32)
        } else {
            None
        },
        None => None,
    }
}

/// Half of a raw pixel coordinate, rounded towards zero.
pub open spec fn halved(pixel: i32) -> i32 {
    if pixel >= 0 {
        (pixel / 2) as i32
    } else {
        (-((-pixel) / 2)) as i32
    }
}

/// The position that the picker's output gives, or why it gives none.
pub open spec fn picker_position(output: Seq<u8>) -> Result<(i32, i32), ResolutionError> {
    if !valid_utf8(output) {
        Err(ResolutionError::InvalidUtf8)
    } else {
        match first_index_of(output, SPACE) {
            None => Err(ResolutionError::MissingSpace),
            Some(space) => {
                let head = output.take(space);
                match first_index_of(head, COMMA) {
                    None => Err(ResolutionError::MissingComma),
                    Some(comma) => match (
                        coordinate_value(head.take(comma)),
                        coordinate_value(head.skip(comma + 1)),
                    ) {
                        (Some(x), Some(y)) => Ok((halved(x), halved(y))),
                        _ => Err(ResolutionError::InvalidNumber),
                    },
                }
            },
        }
    }
}

/// `std::str::from_utf8`, asked only whether it succeeds. It succeeds on
/// the byte strings that are well-formed UTF-8 and on no others; this is
/// taken from its documentation, not proved.
#[verifier::external_body]
fn is_utf8(bytes: &[u8]) -> (valid: bool)
    ensures
        valid == valid_utf8(bytes@),
{
    std::str::from_utf8(bytes).is_ok()
}

/// Where `wanted` first occurs in `bytes`.
pub fn find_byte(bytes: &[u8], wanted: u8) -> (found: Option<usize>)
    ensures
        match found {
            Some(at) => first_index_of(bytes@, wanted) == Some(at as int),
            None => first_index_of(bytes@, wanted) is None,
        },
{
    let mut i: usize = 0;
    while i < bytes.len()
        invariant
            i <= bytes.len(),
            forall|j: int| 0 <= j < i ==> bytes@[j] != wanted,
        decreases bytes.len() - i,
    {
        if bytes[i] == wanted {
            assert(is_first_index_of(bytes@, wanted, i as int));
            return Some(i);
        }
        i += 1;
    }
    None
}

/// A string of digits stands for no less than any of its prefixes.
proof fn digits_value_grows(digits: Seq<u8>, shorter: int)
    requires
        0 <= shorter <= digits.len(),
        all_digits(digits),
    ensures
        digits_value(digits.take(shorter)) <= digits_value(digits),
    decreases digits.len() - shorter,
{
    if shorter == digits.len() {
        assert(digits.take(shorter) == digits);
    } else {
        let longer = digits.take(shorter + 1);
        assert(longer.drop_last() == digits.take(shorter));
        digits_value_grows(digits, shorter + 1);
    }
}

/// Reads a coordinate: an optional sign and decimal digits, as a 32-bit
/// integer that is not negative. `None` for anything else, for a number
/// below zero, and for a number that does not fit.
pub fn parse_coordinate(text: &[u8]) -> (value: Option<i32>)
    ensures
        value == coordinate_value(text@),
        value matches Some(number) ==> number >= 0,
{
    let signed = text.len() > 0 && (text[0] == 0x2b || text[0] == 0x2d);
    let negative = signed && text[0] == 0x2d;
    let start: usize = if signed {
        1
    } else {
        0
    };
    let ghost digits = if signed {
        text@.skip(1)
    } else {
        text@
    };
    if start == text.len() {
        return None;
    }
    let mut total: i64 = 0;
    let mut i: usize = start;
    while i < text.len()
        invariant
            start <= i <= text.len(),
            signed == has_sign(text@),
            start == (if signed {
                1usize
            } else {
                0usize
            }),
            digits == (if signed {
                text@.skip(1)
            } else {
                text@
            }),
            all_digits(digits.take(i - start)),
            total == digits_value(digits.take(i - start)),
            0 <= total <= i32::MAX,
        decreases text.len() - i,
    {
        let byte = text[i];
        if byte < 0x30 || byte > 0x39 {
            assert(!is_digit(digits[i - start]));
            return None;
        }
        let ghost longer = digits.take(i - start + 1);
        proof {
            assert(longer.drop_last() == digits.take(i - start));
            assert forall|j: int| 0 <= j < longer.len() implies is_digit(#[trigger] longer[j]) by {
                if j < i - start {
                    assert(longer[j] == digits.take(i - start)[j]);
                }
            }
        }
        total = total * 10 + (byte - 0x30) as i64;
        if total > 0x7fff_ffff {
            proof {
                if all_digits(digits) {
                    digits_value_grows(digits, i - start + 1);
                }
            }
            return None;
        }
        i += 1;
    }
    assert(digits.take(i - start) == digits);
    if negative && total != 0 {
        None
    } else {
        Some(total as i32)
    }
}

/// Half of a raw pixel coordinate, rounded towards zero: the position in a
/// macro of a pixel that the picker names.
pub fn halve(pixel: i32) -> (half: i32)
    ensures
        half == halved(pixel),
{
    if pixel >= 0 {
        pixel / 2
    } else {
        let raised: i64 = -(pixel as i64);
        (-(raised / 2)) as i32
    }
}

/// Reads the position of a click out of the picker's output.
///
/// The output must be valid UTF-8 as a whole, hold a space, and before the
/// first space a comma; what stands before the first comma and what stands
/// between it and the space must each be a coordinate. The position is half
/// of each coordinate, and so never negative. Each failure has its own
/// error, and they are tested in this order.
pub fn parse_picker_output(output: &[u8]) -> (position: Result<(i32, i32), ResolutionError>)
    ensures
        position == picker_position(output@),
        position matches Ok((x, y)) ==> x >= 0 && y >= 0,
{
    if !is_utf8(output) {
        return Err(ResolutionError::InvalidUtf8);
    }
    let space = match find_byte(output, SPACE) {
        Some(space) => space,
        None => {
            return Err(ResolutionError::MissingSpace);
        },
    };
    let head = &output[0..space];
    let comma = match find_byte(head, COMMA) {
        Some(comma) => comma,
        None => {
            return Err(ResolutionError::MissingComma);
        },
    };
    let first = &head[0..comma];
    let second = &head[comma + 1..space];
    match (parse_coordinate(first), parse_coordinate(second)) {
        (Some(x), Some(y)) => Ok((halve(x), halve(y))),
        _ => Err(ResolutionError::InvalidNumber),
    }
}

/// Resolves the position of the next click from what launching the picker
/// gave: `None` where it could not be launched, else all that it printed.
pub fn resolve_next_click(picker_output: Option<&[u8]>) -> (position: Result<
    (i32, i32),
    ResolutionError,
>)
    ensures
        position == (match picker_output {
            Some(output) => picker_position(output@),
            None => Err(ResolutionError::PickerUnavailable),
        }),
        position matches Ok((x, y)) ==> x >= 0 && y >= 0,
{
    match picker_output {
        Some(output) => parse_picker_output(output),
        None => Err(ResolutionError::PickerUnavailable),
    }
}

} // verus!
