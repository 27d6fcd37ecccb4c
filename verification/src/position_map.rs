//! The physical position map: the fixed wiring of the logical 5x5
//! grid onto the physical 9-row/3-column multiplex grid, and the frame
//! transform the display driver applies before time-slicing columns.
//! The map is a bijection from the 25 logical cells onto 25 of the 27
//! physical cells; the 2 remaining physical cells are never lit.

use vstd::prelude::*;

verus! {

/// The physical (row, column) pair a logical (row, column) pair is
/// wired to.
pub open spec fn spec_led_position(row: int, column: int) -> (int, int) {
    if row == 0 {
        if column == 0 {
            (0, 0)
        } else if column == 1 {
            (3, 1)
        } else if column == 2 {
            (1, 0)
        } else if column == 3 {
            (4, 1)
        } else {
            (2, 0)
        }
    } else if row == 1 {
        (3 + column, 2)
    } else if row == 2 {
        if column == 0 {
            (1, 1)
        } else if column == 1 {
            (8, 0)
        } else if column == 2 {
            (2, 1)
        } else if column == 3 {
            (8, 2)
        } else {
            (0, 1)
        }
    } else if row == 3 {
        (7 - column, 0)
    } else {
        if column == 0 {
            (2, 2)
        } else if column == 1 {
            (6, 1)
        } else if column == 2 {
            (0, 2)
        } else if column == 3 {
            (5, 1)
        } else {
            (1, 2)
        }
    }
}

/// Whether some logical cell is wired to this physical cell.
pub open spec fn spec_position_used(physical_row: int, physical_column: int) -> bool {
    exists|row: int, column: int|
        0 <= row < 5 && 0 <= column < 5 && #[trigger] spec_led_position(row, column) == (
        physical_row,
        physical_column,
        )
}

/// Law: the position map is a bijection of the 25 logical cells onto
/// 25 in-bounds physical cells: every image lies within the 9x3 grid,
/// and no two logical cells share a physical cell.
pub proof fn lemma_position_map_bijection()
    ensures
        forall|row: int, column: int|
            0 <= row < 5 && 0 <= column < 5 ==> 0 <= #[trigger] spec_led_position(
                row,
                column,
            ).0 < 9 && 0 <= spec_led_position(row, column).1 < 3,
        forall|r1: int, c1: int, r2: int, c2: int|
            0 <= r1 < 5 && 0 <= c1 < 5 && 0 <= r2 < 5 && 0 <= c2 < 5 && #[trigger] spec_led_position(r1, c1) == #[trigger] spec_led_position(r2, c2) ==> r1 == r2 && c1 == c2,
{
}

/// The physical cell driving the LED at a logical position.
pub fn map_led_position(row: usize, column: usize) -> (position: (usize, usize))
    requires
        row < 5,
        column < 5,
    ensures
        position.0 == spec_led_position(row as int, column as int).0,
        position.1 == spec_led_position(row as int, column as int).1,
        position.0 < 9,
        position.1 < 3,
{
    match (row, column) {
        (0, 0) => (0, 0),
        (0, 1) => (3, 1),
        (0, 2) => (1, 0),
        (0, 3) => (4, 1),
        (0, 4) => (2, 0),
        (1, column) => (3 + column, 2),
        (2, 0) => (1, 1),
        (2, 1) => (8, 0),
        (2, 2) => (2, 1),
        (2, 3) => (8, 2),
        (2, 4) => (0, 1),
        (3, column) => (7 - column, 0),
        (4, 0) => (2, 2),
        (4, 1) => (6, 1),
        (4, 2) => (0, 2),
        (4, 3) => (5, 1),
        (4, 4) => (1, 2),
        _ => vstd::pervasive::unreached(),
    }
}

/// Rearranges a logical 5x5 frame into the physical 9x3 matrix: every
/// logical cell's value lands on its mapped physical cell, and the two
/// unused physical cells stay dark.
pub fn map_frame(frame: [[u8; 5]; 5]) -> (physical: [[u8; 3]; 9])
    ensures
        forall|row: int, column: int|
            0 <= row < 5 && 0 <= column < 5 ==> physical@[#[trigger] spec_led_position(
                row,
                column,
            ).0]@[spec_led_position(row, column).1] == frame@[row]@[column],
        forall|physical_row: int, physical_column: int|
            0 <= physical_row < 9 && 0 <= physical_column < 3 && !spec_position_used(
                physical_row,
                physical_column,
            ) ==> physical@[physical_row]@[physical_column] == 0,
{
    let mut physical: [[u8; 3]; 9] = [
        [0, 0, 0],
        [0, 0, 0],
        [0, 0, 0],
        [0, 0, 0],
        [0, 0, 0],
        [0, 0, 0],
        [0, 0, 0],
        [0, 0, 0],
        [0, 0, 0],
    ];
    proof {
        lemma_position_map_bijection();
    }
    let mut row: usize = 0;
    while row < 5
        invariant
            row <= 5,
            forall|r: int, c: int|
                0 <= r < row && 0 <= c < 5 ==> physical@[#[trigger] spec_led_position(
                    r,
                    c,
                ).0]@[spec_led_position(r, c).1] == frame@[r]@[c],
            forall|pr: int, pc: int|
                0 <= pr < 9 && 0 <= pc < 3 && !spec_position_used(pr, pc) ==> physical@[pr]@[pc] == 0,
        decreases 5 - row,
    {
        let mut column: usize = 0;
        while column < 5
            invariant
                row < 5,
                column <= 5,
                forall|r: int, c: int|
                    0 <= r < row && 0 <= c < 5 ==> physical@[#[trigger] spec_led_position(
                        r,
                        c,
                    ).0]@[spec_led_position(r, c).1] == frame@[r]@[c],
                forall|c: int|
                    0 <= c < column ==> physical@[#[trigger] spec_led_position(
                        row as int,
                        c,
                    ).0]@[spec_led_position(row as int, c).1] == frame@[row as int]@[c],
                forall|pr: int, pc: int|
                    0 <= pr < 9 && 0 <= pc < 3 && !spec_position_used(pr, pc) ==> physical@[pr]@[pc] == 0,
            decreases 5 - column,
        {
            let position = map_led_position(row, column);
            let mut physical_row: [u8; 3] = physical[position.0];
            physical_row[position.1] = frame[row][column];
            physical[position.0] = physical_row;
            proof {
                lemma_position_map_bijection();
                assert(spec_position_used(
                    spec_led_position(row as int, column as int).0,
                    spec_led_position(row as int, column as int).1,
                ));
            }
            column = column + 1;
        }
        row = row + 1;
    }
    physical
}

} // verus!
