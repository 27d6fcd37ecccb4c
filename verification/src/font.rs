//! The font table: a pure lookup from a character to its fixed-width
//! column bitmap. Every supported character matches exactly one width
//! class (one, two or three columns); an unsupported character matches
//! none and is later rendered as a single blank column.

use vstd::prelude::*;

verus! {

/// The single-column glyphs, one 5-bit column, top row first.
pub open spec fn spec_single_column_character(character: char) -> Option<[u8; 5]> {
    if character == '1' {
        Some([1, 1, 1, 1, 1])
    } else {
        None
    }
}

/// The double-column glyphs. The table currently holds none.
pub open spec fn spec_double_column_character(character: char) -> Option<[[u8; 5]; 2]> {
    None
}

/// The triple-column glyphs, three 5-bit columns, top row first.
pub open spec fn spec_triple_column_character(character: char) -> Option<[[u8; 5]; 3]> {
    if character == '0' {
        Some([[1, 1, 1, 1, 1], [1, 0, 0, 0, 1], [1, 1, 1, 1, 1]])
    } else if character == '2' {
        Some([[1, 0, 1, 1, 1], [1, 0, 1, 0, 1], [1, 1, 1, 0, 1]])
    } else if character == '3' {
        Some([[1, 0, 0, 0, 1], [1, 0, 1, 0, 1], [1, 1, 1, 1, 1]])
    } else if character == '4' {
        Some([[1, 1, 1, 0, 0], [0, 0, 1, 0, 0], [1, 1, 1, 1, 1]])
    } else if character == '5' {
        Some([[1, 1, 1, 0, 1], [1, 0, 1, 0, 1], [1, 0, 1, 1, 1]])
    } else if character == '6' {
        Some([[1, 1, 1, 1, 1], [1, 0, 1, 0, 1], [1, 0, 1, 1, 1]])
    } else if character == '7' {
        Some([[1, 0, 0, 0, 0], [1, 0, 0, 0, 0], [1, 1, 1, 1, 1]])
    } else if character == '8' {
        Some([[1, 1, 1, 1, 1], [1, 0, 1, 0, 1], [1, 1, 1, 1, 1]])
    } else if character == '9' {
        Some([[1, 1, 1, 0, 1], [1, 0, 1, 0, 1], [1, 1, 1, 1, 1]])
    } else {
        None
    }
}

/// The columns a character contributes to an image stream, checked in
/// width order with the first match winning; an unsupported character
/// contributes none.
pub open spec fn glyph_columns(character: char) -> Seq<[u8; 5]> {
    match spec_single_column_character(character) {
        Some(column) => seq![column],
        None => match spec_double_column_character(character) {
            Some(columns) => seq![columns[0], columns[1]],
            None => match spec_triple_column_character(character) {
                Some(columns) => seq![columns[0], columns[1], columns[2]],
                None => Seq::empty(),
            },
        },
    }
}

/// Whether the font table holds a glyph for this character.
pub open spec fn is_supported_character(character: char) -> bool {
    glyph_columns(character).len() > 0
}

pub fn get_single_column_character(character: char) -> (r: Option<[u8; 5]>)
    ensures
        r == spec_single_column_character(character),
{
    match character {
        '1' => Some([1, 1, 1, 1, 1]),
        _ => None,
    }
}

pub fn get_double_column_character(character: char) -> (r: Option<[[u8; 5]; 2]>)
    ensures
        r == spec_double_column_character(character),
{
    match character {
        _ => None,
    }
}

pub fn get_triple_column_character(character: char) -> (r: Option<[[u8; 5]; 3]>)
    ensures
        r == spec_triple_column_character(character),
{
    match character {
        '0' => Some([[1, 1, 1, 1, 1], [1, 0, 0, 0, 1], [1, 1, 1, 1, 1]]),
        '2' => Some([[1, 0, 1, 1, 1], [1, 0, 1, 0, 1], [1, 1, 1, 0, 1]]),
        '3' => Some([[1, 0, 0, 0, 1], [1, 0, 1, 0, 1], [1, 1, 1, 1, 1]]),
        '4' => Some([[1, 1, 1, 0, 0], [0, 0, 1, 0, 0], [1, 1, 1, 1, 1]]),
        '5' => Some([[1, 1, 1, 0, 1], [1, 0, 1, 0, 1], [1, 0, 1, 1, 1]]),
        '6' => Some([[1, 1, 1, 1, 1], [1, 0, 1, 0, 1], [1, 0, 1, 1, 1]]),
        '7' => Some([[1, 0, 0, 0, 0], [1, 0, 0, 0, 0], [1, 1, 1, 1, 1]]),
        '8' => Some([[1, 1, 1, 1, 1], [1, 0, 1, 0, 1], [1, 1, 1, 1, 1]]),
        '9' => Some([[1, 1, 1, 0, 1], [1, 0, 1, 0, 1], [1, 1, 1, 1, 1]]),
        _ => None,
    }
}

} // verus!
