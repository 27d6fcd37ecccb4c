use microbit_scrolling_display::countdown::countdown_tick;
use microbit_scrolling_display::countdown::CountdownState;
use microbit_scrolling_display::countdown::TICKS_PER_HOUR;
use microbit_scrolling_display::encoder::encode_number;
use microbit_scrolling_display::image_buffer::ImageBuffer;
use microbit_scrolling_display::scroll::DisplayState;

fn columns_of(buffer: &ImageBuffer) -> Vec<[u8; 5]> {
    let mut columns = Vec::new();
    let mut i = 0;
    while i < buffer.len() {
        columns.push(buffer.column(i));
        i += 1;
    }
    columns
}

fn displayed_columns(state: &DisplayState) -> Vec<[u8; 5]> {
    let mut columns = Vec::new();
    let mut i = 0;
    while i < state.buffer_len() {
        columns.push(state.buffer_column(i));
        i += 1;
    }
    columns
}

#[test]
fn one_hour_of_ticks_takes_off_one_hour() {
    let mut countdown = CountdownState::new(674);
    let mut display = DisplayState::new();
    display.display_number(674 / 24).unwrap();

    for tick in 1..=TICKS_PER_HOUR {
        let stop = countdown_tick(&mut countdown, &mut display);
        assert!(!stop);
        if tick < TICKS_PER_HOUR {
            assert_eq!(countdown.counter, tick);
            assert_eq!(countdown.hours, 674);
        }
    }

    assert_eq!(countdown.counter, 0);
    assert_eq!(countdown.hours, 673);
    // The displayed number is now 673 / 24 = 28, freshly encoded.
    assert_eq!(
        displayed_columns(&display),
        columns_of(&encode_number(673 / 24).unwrap())
    );
    assert_eq!(display.scroll_cursor(), None);
}

#[test]
fn ticks_before_the_rollover_leave_the_display_alone() {
    let mut countdown = CountdownState::new(2);
    let mut display = DisplayState::new();
    display.display_text("1").unwrap();
    display.scroll_text();

    for _ in 0..TICKS_PER_HOUR - 1 {
        let stop = countdown_tick(&mut countdown, &mut display);
        assert!(!stop);
    }
    assert_eq!(countdown.counter, TICKS_PER_HOUR - 1);
    assert_eq!(countdown.hours, 2);
    assert_eq!(display.buffer_len(), 7);
    assert_eq!(display.scroll_cursor(), Some(0));
}

#[test]
fn reaching_zero_hours_stops_the_timer_and_displays_zero() {
    let mut countdown = CountdownState::new(1);
    let mut display = DisplayState::new();
    display.display_number(1 / 24).unwrap();

    let mut stopped = false;
    for tick in 1..=TICKS_PER_HOUR {
        let stop = countdown_tick(&mut countdown, &mut display);
        if tick < TICKS_PER_HOUR {
            assert!(!stop);
        } else {
            assert!(stop);
            stopped = true;
        }
    }
    assert!(stopped);
    assert_eq!(countdown.hours, 0);
    assert_eq!(countdown.counter, 0);
    assert_eq!(
        displayed_columns(&display),
        columns_of(&encode_number(0).unwrap())
    );
}
