//! Driver core for a 5x5 LED matrix multiplexed onto a 9-row/3-column
//! physical grid: a column-bitmap font, an encoder that turns text and
//! numbers into a scrollable stream of column images, a tick-driven
//! scroll cursor, the logical-to-physical position map, and the
//! hour-countdown state machine.

pub mod countdown;
pub mod encoder;
pub mod font;
pub mod image_buffer;
pub mod position_map;
pub mod scroll;

use vstd::prelude::*;

verus! {

/// A column image: one vertical 5-LED slice, top row first; 1 means lit.
pub open spec fn spec_blank_column() -> [u8; 5] {
    [0, 0, 0, 0, 0]
}

/// The all-blank 5-column frame, appended after encoded content as the
/// loop separator.
pub open spec fn spec_blank_frame() -> Seq<[u8; 5]> {
    seq![
        spec_blank_column(),
        spec_blank_column(),
        spec_blank_column(),
        spec_blank_column(),
        spec_blank_column(),
    ]
}

/// A blank column, the inter-glyph separator.
pub fn blank_column() -> (c: [u8; 5])
    ensures
        c == spec_blank_column(),
{
    [0, 0, 0, 0, 0]
}

} // verus!
