//! The shared scrolling state: the image buffer holding the current
//! content, the scroll cursor into it, and the visible 5x5 frame. A
//! scheduler tick advances the cursor by one column, wrapping at the
//! end, and shifts the newly revealed column into the frame from the
//! right. Replacing the content resets the cursor to its unset state
//! so the next tick restarts at the beginning.

use vstd::prelude::*;

use crate::encoder::encode_number;
use crate::encoder::encode_text;
use crate::encoder::spec_number_encoding;
use crate::encoder::spec_text_encoding;
use crate::image_buffer::CapacityError;
use crate::image_buffer::ImageBuffer;
use crate::spec_blank_frame;

verus! {

/// The mathematical value of the shared display state: the buffered
/// column images, the scroll cursor (`None` until scrolling of fresh
/// content starts), and the five visible frame columns.
#[verifier::ext_equal]
pub ghost struct DisplayModel {
    pub buffer: Seq<[u8; 5]>,
    pub cursor: Option<usize>,
    pub frame: Seq<[u8; 5]>,
}

/// The index a tick advances the cursor to: an unset or out-of-range
/// cursor restarts at 0, otherwise it moves one column to the right,
/// wrapping at the end of the buffer.
pub open spec fn spec_next_cursor(cursor: Option<usize>, len: int) -> int {
    match cursor {
        None => 0,
        Some(i) => if i >= len - 1 {
            0
        } else {
            i + 1
        },
    }
}

/// One scheduler tick at the model level: with an empty buffer nothing
/// changes; otherwise the cursor advances and the frame drops its
/// leftmost column and takes the newly revealed column on the right.
pub open spec fn spec_scroll(m: DisplayModel) -> DisplayModel {
    if m.buffer.len() == 0 {
        m
    } else {
        let next = spec_next_cursor(m.cursor, m.buffer.len() as int);
        DisplayModel {
            buffer: m.buffer,
            cursor: Some(next as usize),
            frame: m.frame.drop_first().push(m.buffer[next]),
        }
    }
}

/// The model after n scheduler ticks.
pub open spec fn spec_scroll_n(m: DisplayModel, n: nat) -> DisplayModel
    decreases n,
{
    if n == 0 {
        m
    } else {
        spec_scroll(spec_scroll_n(m, (n - 1) as nat))
    }
}

/// The shared display state that the encoder refills, the scheduler
/// tick advances, and the multiplex driver reads.
pub struct DisplayState {
    buffer: ImageBuffer,
    cursor: Option<usize>,
    frame: [[u8; 5]; 5],
}

impl View for DisplayState {
    type V = DisplayModel;

    closed spec fn view(&self) -> DisplayModel {
        DisplayModel { buffer: self.buffer@, cursor: self.cursor, frame: self.frame@ }
    }
}

impl DisplayState {
    /// The startup state: no content, an unset cursor, a blank frame.
    pub fn new() -> (state: DisplayState)
        ensures
            state@.buffer == Seq::<[u8; 5]>::empty(),
            state@.cursor is None,
            state@.frame == spec_blank_frame(),
    {
        let state = DisplayState {
            buffer: ImageBuffer::new(),
            cursor: None,
            frame: [
                [0, 0, 0, 0, 0],
                [0, 0, 0, 0, 0],
                [0, 0, 0, 0, 0],
                [0, 0, 0, 0, 0],
                [0, 0, 0, 0, 0],
            ],
        };
        proof {
            assert(state@.frame =~= spec_blank_frame());
        }
        state
    }

    /// Replaces the content with the encoded text and unsets the
    /// cursor, so the next tick starts scrolling the new content from
    /// its beginning. On a capacity error nothing changes.
    pub fn display_text(&mut self, text: &str) -> (r: Result<(), CapacityError>)
        ensures
            r is Ok <==> spec_text_encoding(text@).len() + 5 <= 32,
            r is Ok ==> final(self)@.buffer == spec_text_encoding(text@) + spec_blank_frame(),
            r is Ok ==> final(self)@.cursor is None && final(self)@.frame == old(self)@.frame,
            r is Err ==> *final(self) == *old(self),
    {
        match encode_text(text) {
            Ok(buffer) => {
                self.buffer = buffer;
                self.cursor = None;
                Ok(())
            },
            Err(e) => Err(e),
        }
    }

    /// Replaces the content with the encoded decimal number and unsets
    /// the cursor. On a capacity error nothing changes.
    pub fn display_number(&mut self, number: u16) -> (r: Result<(), CapacityError>)
        ensures
            r is Ok <==> spec_number_encoding(number as nat).len() + 5 <= 32,
            r is Ok ==> final(self)@.buffer == spec_number_encoding(number as nat) + spec_blank_frame(),
            r is Ok ==> final(self)@.cursor is None && final(self)@.frame == old(self)@.frame,
            r is Err ==> *final(self) == *old(self),
    {
        match encode_number(number) {
            Ok(buffer) => {
                self.buffer = buffer;
                self.cursor = None;
                Ok(())
            },
            Err(e) => Err(e),
        }
    }

    /// One scheduler tick: advances the cursor and shifts the revealed
    /// column into the frame from the right; with an empty buffer the
    /// state is left as it is.
    pub fn scroll_text(&mut self)
        ensures
            final(self)@ == spec_scroll(old(self)@),
    {
        if self.buffer.is_empty() {
            return;
        }
        let len = self.buffer.len();
        let next: usize = match self.cursor {
            None => 0,
            Some(i) => if i >= len - 1 {
                0
            } else {
                i + 1
            },
        };
        let column = self.buffer.column(next);
        self.frame = [self.frame[1], self.frame[2], self.frame[3], self.frame[4], column];
        self.cursor = Some(next);
        proof {
            assert(self@.frame =~= spec_scroll(old(self)@).frame);
            assert(self@ =~= spec_scroll(old(self)@));
        }
    }

    /// A copy of the visible frame, for the multiplex driver.
    pub fn current_frame(&self) -> (frame: [[u8; 5]; 5])
        ensures
            frame@ == self@.frame,
    {
        self.frame
    }

    /// The scroll cursor as it stands.
    pub fn scroll_cursor(&self) -> (cursor: Option<usize>)
        ensures
            cursor == self@.cursor,
    {
        self.cursor
    }

    /// How many column images the current content holds.
    pub fn buffer_len(&self) -> (n: usize)
        ensures
            n == self@.buffer.len(),
    {
        self.buffer.len()
    }

    /// The buffered column image at the given index.
    pub fn buffer_column(&self, i: usize) -> (column: [u8; 5])
        requires
            i < self@.buffer.len(),
        ensures
            column == self@.buffer[i as int],
    {
        self.buffer.column(i)
    }
}

/// Law: once the content has been replaced the cursor is unset, and
/// the next tick then starts scrolling at index 0; a cursor left
/// beyond the end of the buffer restarts at 0 the same way.
pub proof fn lemma_reset_starts_at_zero(m: DisplayModel)
    requires
        m.buffer.len() > 0,
        m.cursor is None || (m.cursor matches Some(i) && i + 1 >= m.buffer.len()),
    ensures
        spec_scroll(m).cursor == Some(0usize),
{
}

/// Law: scrolling is cyclic with period exactly the buffer length:
/// from index 0, the k-th tick reaches index k while k is below the
/// length, and the length-th tick is the first to return the cursor
/// to 0. The buffered content is never changed by ticking.
pub proof fn lemma_scroll_wraps(m: DisplayModel, k: nat)
    requires
        0 < m.buffer.len() <= 32,
        m.cursor == Some(0usize),
        k <= m.buffer.len(),
    ensures
        spec_scroll_n(m, k).buffer == m.buffer,
        0 < k < m.buffer.len() ==> spec_scroll_n(m, k).cursor == Some(k as usize),
        k == m.buffer.len() ==> spec_scroll_n(m, k).cursor == Some(0usize),
    decreases k,
{
    if k > 0 {
        lemma_scroll_wraps(m, (k - 1) as nat);
        let prev = spec_scroll_n(m, (k - 1) as nat);
        assert(spec_scroll_n(m, k) == spec_scroll(prev));
        if k == 1 {
            assert(prev == m);
        }
    }
}

} // verus!
