//! What holds of every output of the picker: a position is read exactly
//! from the lines that have the picker's form.

use crate::resolver::{
    all_digits, coordinate_value, first_index_of, halved, has_sign, is_digit, is_first_index_of,
    picker_position, ResolutionError, COMMA, SPACE,
};
use vstd::prelude::*;
use vstd::utf8::valid_utf8;

verus! {

/// Whether `output` has the picker's form, with its comma at `comma` and the
/// space that ends the coordinates at `space`: a coordinate, the comma, a
/// coordinate, the space, and anything after it.
pub open spec fn is_picker_line(output: Seq<u8>, comma: int, space: int) -> bool {
    &&& 0 <= comma < space < output.len()
    &&& output[comma] == COMMA
    &&& output[space] == SPACE
    &&& coordinate_value(output.subrange(0, comma)) is Some
    &&& coordinate_value(output.subrange(comma + 1, space)) is Some
}

/// The position that a line of the picker's form gives: half of each of its
/// two coordinates.
pub open spec fn line_position(output: Seq<u8>, comma: int, space: int) -> (i32, i32) {
    (
        halved(coordinate_value(output.subrange(0, comma))->Some_0),
        halved(coordinate_value(output.subrange(comma + 1, space))->Some_0),
    )
}

/// A coordinate is written with signs and digits only: it holds no space and
/// no comma.
proof fn coordinate_holds_no_separator(text: Seq<u8>, at: int)
    requires
        coordinate_value(text) is Some,
        0 <= at < text.len(),
    ensures
        text[at] != SPACE,
        text[at] != COMMA,
{
    if has_sign(text) && at > 0 {
        assert(is_digit(text.skip(1)[at - 1]));
    }
}

/// The first occurrence of a byte is where it is found with none before it.
proof fn first_index_is_unique(bytes: Seq<u8>, wanted: u8, at: int)
    requires
        is_first_index_of(bytes, wanted, at),
    ensures
        first_index_of(bytes, wanted) == Some(at),
{
}

/// Every line of the picker's form is read, and gives half of each of its
/// two coordinates, whatever follows the space, as long as the whole is
/// valid UTF-8.
pub proof fn picker_line_is_read(output: Seq<u8>, comma: int, space: int)
    requires
        valid_utf8(output),
        is_picker_line(output, comma, space),
    ensures
        picker_position(output) == Ok::<(i32, i32), ResolutionError>(
            line_position(output, comma, space),
        ),
{
    let first = output.subrange(0, comma);
    let second = output.subrange(comma + 1, space);
    assert forall|j: int| 0 <= j < space implies output[j] != SPACE by {
        if j < comma {
            coordinate_holds_no_separator(first, j);
        } else if j > comma {
            coordinate_holds_no_separator(second, j - comma - 1);
        }
    }
    first_index_is_unique(output, SPACE, space);
    let head = output.take(space);
    assert forall|j: int| 0 <= j < comma implies head[j] != COMMA by {
        coordinate_holds_no_separator(first, j);
    }
    first_index_is_unique(head, COMMA, comma);
    assert(head.take(comma) == first);
    assert(head.skip(comma + 1) == second);
}

/// A position is read only from valid UTF-8 that has the picker's form, and
/// it is half of each of the two coordinates of that form.
pub proof fn read_position_comes_from_a_picker_line(output: Seq<u8>)
    requires
        picker_position(output) is Ok,
    ensures
        valid_utf8(output),
        exists|comma: int, space: int|
            #![trigger is_picker_line(output, comma, space)]
            is_picker_line(output, comma, space) && picker_position(output) == Ok::<
                (i32, i32),
                ResolutionError,
            >(line_position(output, comma, space)),
{
    let space = first_index_of(output, SPACE)->Some_0;
    let head = output.take(space);
    let comma = first_index_of(head, COMMA)->Some_0;
    assert(head.take(comma) == output.subrange(0, comma));
    assert(head.skip(comma + 1) == output.subrange(comma + 1, space));
    assert(is_picker_line(output, comma, space));
}

/// No output of the picker gives a negative position: a number below zero
/// is no coordinate, and half of a coordinate is not negative.
pub proof fn read_position_is_not_negative(output: Seq<u8>)
    ensures
        picker_position(output) matches Ok((x, y)) ==> x >= 0 && y >= 0,
{
}

} // verus!
