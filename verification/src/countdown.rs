//! The hour-countdown state machine fed by the second periodic timer:
//! a sub-tick counter rolls over every 28,800 ticks — exactly one hour
//! at the 8 Hz tick frequency — decrementing the hours that remain and
//! re-encoding the displayed number as those hours divided by 24. When
//! the hours reach zero the machine asks for its timer to be stopped,
//! after which it receives no further ticks.

use vstd::prelude::*;

use crate::encoder::lemma_digits_len;
use crate::encoder::lemma_text_encoding_len;
use crate::encoder::spec_digits;
use crate::encoder::spec_number_encoding;
use crate::encoder::spec_pow10;
use crate::scroll::DisplayModel;
use crate::scroll::DisplayState;
use crate::spec_blank_frame;

verus! {

/// How many scheduler ticks make one hour at the 8 Hz tick frequency.
pub const TICKS_PER_HOUR: u16 = 28800;

/// The countdown's state: the hours that remain, and the sub-tick
/// counter toward the next full hour.
pub struct CountdownState {
    /// Ticks seen since the last full hour; always below TICKS_PER_HOUR.
    pub counter: u16,
    /// Hours remaining; the countdown's timer is stopped at zero.
    pub hours: u16,
}

impl CountdownState {
    /// A countdown at the start of an hour.
    pub fn new(hours: u16) -> (countdown: CountdownState)
        ensures
            countdown.counter == 0,
            countdown.hours == hours,
    {
        CountdownState { counter: 0, hours }
    }
}

/// One countdown tick at the model level: the counter advances; on
/// rollover it resets, an hour is taken off, and the display's content
/// becomes the encoding of the remaining hours divided by 24, with the
/// scroll cursor unset.
pub open spec fn spec_countdown_step(countdown: CountdownState, display: DisplayModel) -> (
    CountdownState,
    DisplayModel,
) {
    if countdown.counter + 1 < TICKS_PER_HOUR {
        ((CountdownState { counter: (countdown.counter + 1) as u16, hours: countdown.hours }), display)
    } else {
        (
            (CountdownState { counter: 0, hours: (countdown.hours - 1) as u16 }),
            DisplayModel {
                buffer: spec_number_encoding((((countdown.hours - 1) as u16 / 24) as nat))
                    + spec_blank_frame(),
                cursor: None,
                frame: display.frame,
            },
        )
    }
}

/// The model after n countdown ticks.
pub open spec fn spec_countdown_run(
    countdown: CountdownState,
    display: DisplayModel,
    n: nat,
) -> (CountdownState, DisplayModel)
    decreases n,
{
    if n == 0 {
        (countdown, display)
    } else {
        let previous = spec_countdown_run(countdown, display, (n - 1) as nat);
        spec_countdown_step(previous.0, previous.1)
    }
}

/// The encoding of any number a u16 can hold has at most five digits
/// and so needs at most 25 of the buffer's 32 columns.
proof fn lemma_displayed_number_fits(n: u16)
    ensures
        spec_number_encoding(n as nat).len() + 5 <= 32,
{
    assert(spec_pow10(5) == 100000) by {
        reveal_with_fuel(spec_pow10, 6);
    }
    lemma_digits_len(n as nat, 5);
    lemma_text_encoding_len(spec_digits(n as nat));
}

/// One firing of the countdown timer's handler. Returns whether the
/// countdown just reached zero hours, upon which the caller must stop
/// the timer so that no further tick arrives.
pub fn countdown_tick(countdown: &mut CountdownState, display: &mut DisplayState) -> (stop: bool)
    requires
        old(countdown).counter < TICKS_PER_HOUR,
        old(countdown).hours >= 1,
    ensures
        *final(countdown) == spec_countdown_step(*old(countdown), old(display)@).0,
        final(display)@ == spec_countdown_step(*old(countdown), old(display)@).1,
        stop == (old(countdown).counter + 1 == TICKS_PER_HOUR && old(countdown).hours == 1),
        final(countdown).counter < TICKS_PER_HOUR,
{
    countdown.counter = countdown.counter + 1;

    if countdown.counter == TICKS_PER_HOUR {
        countdown.counter = 0;
        countdown.hours = countdown.hours - 1;

        let hours_to_display = countdown.hours / 24;
        proof {
            lemma_displayed_number_fits(hours_to_display);
        }
        match display.display_number(hours_to_display) {
            Ok(()) => {},
            Err(_) => {
                assert(false);
            },
        }
        proof {
            assert(display@ =~= spec_countdown_step(*old(countdown), old(display)@).1);
        }

        countdown.hours == 0
    } else {
        false
    }
}

/// Law: from the start of an hour with h >= 1 hours remaining, the
/// first 28,799 ticks only advance the sub-tick counter, and the
/// 28,800th tick decreases the hours remaining by exactly one and
/// replaces the displayed content with the encoding of (h - 1) / 24,
/// leaving the scroll cursor unset.
pub proof fn lemma_hour_rollover(countdown: CountdownState, display: DisplayModel, k: nat)
    requires
        countdown.counter == 0,
        countdown.hours >= 1,
        k <= TICKS_PER_HOUR,
    ensures
        k < TICKS_PER_HOUR ==> spec_countdown_run(countdown, display, k).0 == (CountdownState { counter: k as u16, hours: countdown.hours }),
        k < TICKS_PER_HOUR ==> spec_countdown_run(countdown, display, k).1 == display,
        k == TICKS_PER_HOUR ==> spec_countdown_run(countdown, display, k).0 == (CountdownState { counter: 0, hours: (countdown.hours - 1) as u16 }),
        k == TICKS_PER_HOUR ==> spec_countdown_run(countdown, display, k).1.buffer == spec_number_encoding((((countdown.hours - 1) as u16 / 24) as nat)) + spec_blank_frame(),
        k == TICKS_PER_HOUR ==> spec_countdown_run(countdown, display, k).1.cursor is None,
        k == TICKS_PER_HOUR ==> spec_countdown_run(countdown, display, k).1.frame == display.frame,
    decreases k,
{
    if k > 0 {
        lemma_hour_rollover(countdown, display, (k - 1) as nat);
    }
}

} // verus!
