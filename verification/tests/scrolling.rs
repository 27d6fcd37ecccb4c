use microbit_scrolling_display::scroll::DisplayState;

const BLANK: [u8; 5] = [0, 0, 0, 0, 0];
const ONE: [u8; 5] = [1, 1, 1, 1, 1];

#[test]
fn startup_state_is_blank_and_unset() {
    let state = DisplayState::new();
    assert_eq!(state.buffer_len(), 0);
    assert_eq!(state.scroll_cursor(), None);
    assert_eq!(state.current_frame(), [BLANK; 5]);
}

#[test]
fn tick_with_empty_buffer_changes_nothing() {
    let mut state = DisplayState::new();
    state.scroll_text();
    assert_eq!(state.scroll_cursor(), None);
    assert_eq!(state.current_frame(), [BLANK; 5]);
}

#[test]
fn display_text_fills_buffer_and_unsets_cursor() {
    let mut state = DisplayState::new();
    state.display_text("1").unwrap();
    assert_eq!(state.buffer_len(), 7);
    assert_eq!(state.scroll_cursor(), None);
    assert_eq!(state.buffer_column(0), ONE);
    for i in 1..7 {
        assert_eq!(state.buffer_column(i), BLANK);
    }
}

#[test]
fn first_tick_after_reset_starts_at_zero() {
    let mut state = DisplayState::new();
    state.display_text("1").unwrap();
    state.scroll_text();
    assert_eq!(state.scroll_cursor(), Some(0));
    assert_eq!(state.current_frame(), [BLANK, BLANK, BLANK, BLANK, ONE]);
}

#[test]
fn reset_overrides_any_prior_cursor() {
    let mut state = DisplayState::new();
    state.display_text("1").unwrap();
    for _ in 0..5 {
        state.scroll_text();
    }
    assert_eq!(state.scroll_cursor(), Some(4));

    state.display_number(28).unwrap();
    assert_eq!(state.scroll_cursor(), None);
    state.scroll_text();
    assert_eq!(state.scroll_cursor(), Some(0));

    state.display_text("1").unwrap();
    assert_eq!(state.scroll_cursor(), None);
    state.scroll_text();
    assert_eq!(state.scroll_cursor(), Some(0));
}

#[test]
fn cursor_wraps_with_period_equal_to_buffer_length() {
    let mut state = DisplayState::new();
    state.display_text("1").unwrap();
    let length = state.buffer_len();
    assert_eq!(length, 7);
    state.scroll_text();
    assert_eq!(state.scroll_cursor(), Some(0));
    for k in 1..length {
        state.scroll_text();
        assert_eq!(state.scroll_cursor(), Some(k));
    }
    state.scroll_text();
    assert_eq!(state.scroll_cursor(), Some(0));
}

#[test]
fn frame_scrolls_content_in_from_the_right() {
    let mut state = DisplayState::new();
    state.display_number(28).unwrap();
    let length = state.buffer_len();
    assert_eq!(length, 13);
    let mut window = vec![BLANK; 5];
    for i in 0..(2 * length) {
        state.scroll_text();
        window.remove(0);
        window.push(state.buffer_column(i % length));
        assert_eq!(state.current_frame().to_vec(), window);
    }
}

#[test]
fn failed_display_call_leaves_state_unchanged() {
    let mut state = DisplayState::new();
    state.display_text("1").unwrap();
    state.scroll_text();
    assert_eq!(state.scroll_cursor(), Some(0));

    assert!(state.display_text("00000000").is_err());
    assert_eq!(state.buffer_len(), 7);
    assert_eq!(state.scroll_cursor(), Some(0));
    assert_eq!(state.current_frame(), [BLANK, BLANK, BLANK, BLANK, ONE]);
}
