use microbit_scrolling_display::position_map::map_frame;
use microbit_scrolling_display::position_map::map_led_position;

#[test]
fn position_map_spot_values() {
    assert_eq!(map_led_position(0, 0), (0, 0));
    assert_eq!(map_led_position(0, 1), (3, 1));
    assert_eq!(map_led_position(1, 3), (6, 2));
    assert_eq!(map_led_position(2, 1), (8, 0));
    assert_eq!(map_led_position(3, 4), (3, 0));
    assert_eq!(map_led_position(4, 2), (0, 2));
}

#[test]
fn position_map_is_a_bijection_onto_25_cells() {
    let mut seen = Vec::new();
    for row in 0..5 {
        for column in 0..5 {
            let position = map_led_position(row, column);
            assert!(position.0 < 9);
            assert!(position.1 < 3);
            assert!(
                !seen.contains(&position),
                "physical cell {:?} hit twice",
                position
            );
            seen.push(position);
        }
    }
    assert_eq!(seen.len(), 25);
}

#[test]
fn map_frame_places_every_cell_and_leaves_the_rest_dark() {
    let mut frame = [[0u8; 5]; 5];
    for row in 0..5 {
        for column in 0..5 {
            frame[row][column] = (row * 5 + column + 1) as u8;
        }
    }
    let physical = map_frame(frame);
    for row in 0..5 {
        for column in 0..5 {
            let position = map_led_position(row, column);
            assert_eq!(physical[position.0][position.1], frame[row][column]);
        }
    }
    // The two physical cells no logical cell is wired to stay dark.
    assert_eq!(physical[7][1], 0);
    assert_eq!(physical[8][1], 0);
}

#[test]
fn map_frame_of_blank_frame_is_all_dark() {
    let physical = map_frame([[0; 5]; 5]);
    assert_eq!(physical, [[0; 3]; 9]);
}
