//! The image encoder: turns text and non-negative numbers into the
//! ordered stream of 5-bit column images that scrolls across the
//! display. Every glyph is followed by one blank separator column, and
//! complete content is followed by a full blank frame so the scroll
//! wraps cleanly.

use vstd::prelude::*;
use vstd::string::StrSliceExecFns;

use crate::blank_column;
use crate::font::get_double_column_character;
use crate::font::get_single_column_character;
use crate::font::get_triple_column_character;
use crate::font::glyph_columns;
use crate::image_buffer::CapacityError;
use crate::image_buffer::ImageBuffer;
use crate::spec_blank_column;
use crate::spec_blank_frame;

verus! {

/// The columns one character contributes: its glyph columns (none for
/// an unsupported character) followed by one blank separator column.
pub open spec fn spec_char_encoding(character: char) -> Seq<[u8; 5]> {
    glyph_columns(character).push(spec_blank_column())
}

/// The columns a text contributes, character by character in order.
pub open spec fn spec_text_encoding(text: Seq<char>) -> Seq<[u8; 5]>
    decreases text.len(),
{
    if text.len() == 0 {
        Seq::empty()
    } else {
        spec_char_encoding(text[0]) + spec_text_encoding(text.drop_first())
    }
}

/// Encoding a concatenation encodes each part in turn.
pub proof fn lemma_text_encoding_concat(a: Seq<char>, b: Seq<char>)
    ensures
        spec_text_encoding(a + b) == spec_text_encoding(a) + spec_text_encoding(b),
    decreases a.len(),
{
    if a.len() == 0 {
        assert(a + b =~= b);
        assert(spec_text_encoding(a) + spec_text_encoding(b) =~= spec_text_encoding(b));
    } else {
        assert((a + b).len() > 0);
        assert((a + b)[0] == a[0]);
        assert((a + b).drop_first() =~= a.drop_first() + b);
        lemma_text_encoding_concat(a.drop_first(), b);
        assert(spec_char_encoding(a[0]) + (spec_text_encoding(a.drop_first())
            + spec_text_encoding(b)) =~= (spec_char_encoding(a[0]) + spec_text_encoding(
            a.drop_first(),
        )) + spec_text_encoding(b));
    }
}

/// Appending one character appends that character's encoding.
pub proof fn lemma_text_encoding_push(text: Seq<char>, character: char)
    ensures
        spec_text_encoding(text.push(character)) == spec_text_encoding(text)
            + spec_char_encoding(character),
{
    assert(text.push(character) =~= text + seq![character]);
    lemma_text_encoding_concat(text, seq![character]);
    assert(seq![character].drop_first() =~= Seq::<char>::empty());
    assert(spec_text_encoding(Seq::<char>::empty()) =~= Seq::<[u8; 5]>::empty());
    assert(spec_text_encoding(seq![character]) =~= spec_char_encoding(character));
}

/// A prefix of fixed length is unchanged by extending the sequence.
proof fn lemma_take_extension(x: Seq<[u8; 5]>, y: Seq<[u8; 5]>)
    requires
        x.len() >= 32,
    ensures
        (x + y).take(32) == x.take(32),
{
    assert((x + y).take(32) =~= x.take(32));
}

/// The columns that encode a text, gathered in order.
fn text_columns(content: &str) -> (cols: Vec<[u8; 5]>)
    ensures
        cols@ == spec_text_encoding(content@),
{
    let n = content.unicode_len();
    let mut cols: Vec<[u8; 5]> = Vec::new();
    let mut i: usize = 0;
    while i < n
        invariant
            i <= n,
            n == content@.len(),
            cols@ == spec_text_encoding(content@.take(i as int)),
        decreases n - i,
    {
        let character = content.get_char(i);
        if let Some(image) = get_single_column_character(character) {
            cols.push(image);
        } else if let Some(image) = get_double_column_character(character) {
            cols.push(image[0]);
            cols.push(image[1]);
        } else if let Some(image) = get_triple_column_character(character) {
            cols.push(image[0]);
            cols.push(image[1]);
            cols.push(image[2]);
        }
        cols.push(blank_column());
        proof {
            lemma_text_encoding_push(content@.take(i as int), character);
            assert(content@.take(i as int).push(character) =~= content@.take(i as int + 1));
            assert(cols@ =~= spec_text_encoding(content@.take(i as int)) + spec_char_encoding(
                character,
            ));
        }
        i = i + 1;
    }
    proof {
        assert(content@.take(n as int) =~= content@);
    }
    cols
}

/// Appends the given columns in order until done or the buffer fills.
fn push_all(image_buffer: &mut ImageBuffer, cols: &Vec<[u8; 5]>) -> (r: Result<(), CapacityError>)
    ensures
        r is Ok <==> old(image_buffer)@.len() + cols@.len() <= 32,
        r is Ok ==> final(image_buffer)@ == old(image_buffer)@ + cols@,
        r is Err ==> final(image_buffer)@ == (old(image_buffer)@ + cols@).take(32),
{
    let n = cols.len();
    let mut j: usize = 0;
    while j < n
        invariant
            j <= n,
            n == cols@.len(),
            image_buffer@ == old(image_buffer)@ + cols@.take(j as int),
        decreases n - j,
    {
        match image_buffer.push_column(cols[j]) {
            Ok(()) => {
                proof {
                    assert(cols@.take(j as int).push(cols@[j as int]) =~= cols@.take(
                        j as int + 1,
                    ));
                    assert(image_buffer@ =~= old(image_buffer)@ + cols@.take(j as int + 1));
                }
            },
            Err(_) => {
                proof {
                    use_type_invariant(&*image_buffer);
                    assert(image_buffer@.len() == 32);
                    assert((old(image_buffer)@ + cols@).take(32) =~= image_buffer@);
                }
                return Err(CapacityError);
            },
        }
        j = j + 1;
    }
    proof {
        assert(cols@.take(n as int) =~= cols@);
        use_type_invariant(&*image_buffer);
    }
    Ok(())
}

/// The five blank columns of the trailing loop-separator frame.
fn blank_frame_columns() -> (cols: Vec<[u8; 5]>)
    ensures
        cols@ == spec_blank_frame(),
{
    let mut cols: Vec<[u8; 5]> = Vec::new();
    cols.push(blank_column());
    cols.push(blank_column());
    cols.push(blank_column());
    cols.push(blank_column());
    cols.push(blank_column());
    proof {
        assert(cols@ =~= spec_blank_frame());
    }
    cols
}

/// Appends the encoding of the text: for each character its glyph
/// columns (nothing for an unsupported one) and a blank separator
/// column. Reports a capacity error, leaving a full buffer holding the
/// first 32 columns, when the result would not fit.
pub fn add_content_to_image_buffer(content: &str, image_buffer: &mut ImageBuffer) -> (r: Result<
    (),
    CapacityError,
>)
    ensures
        r is Ok <==> old(image_buffer)@.len() + spec_text_encoding(content@).len() <= 32,
        r is Ok ==> final(image_buffer)@ == old(image_buffer)@ + spec_text_encoding(content@),
        r is Err ==> final(image_buffer)@ == (old(image_buffer)@ + spec_text_encoding(content@)).take(32),
{
    let cols = text_columns(content);
    push_all(image_buffer, &cols)
}

/// Encodes a text as a fresh image buffer: the text's columns followed
/// by one full blank frame, or a capacity error if that would not fit.
pub fn encode_text(text: &str) -> (r: Result<ImageBuffer, CapacityError>)
    ensures
        r is Ok <==> spec_text_encoding(text@).len() + 5 <= 32,
        r matches Ok(buffer) ==> buffer@ == spec_text_encoding(text@) + spec_blank_frame(),
{
    let mut buffer = ImageBuffer::new();
    match add_content_to_image_buffer(text, &mut buffer) {
        Ok(()) => {},
        Err(e) => {
            return Err(e);
        },
    }
    let blanks = blank_frame_columns();
    match push_all(&mut buffer, &blanks) {
        Ok(()) => Ok(buffer),
        Err(e) => Err(e),
    }
}

/// The decimal digit characters.
pub open spec fn spec_digit_character(d: int) -> char {
    if d == 0 {
        '0'
    } else if d == 1 {
        '1'
    } else if d == 2 {
        '2'
    } else if d == 3 {
        '3'
    } else if d == 4 {
        '4'
    } else if d == 5 {
        '5'
    } else if d == 6 {
        '6'
    } else if d == 7 {
        '7'
    } else if d == 8 {
        '8'
    } else {
        '9'
    }
}

/// The decimal digits of a number, most significant first.
pub open spec fn spec_digits(n: nat) -> Seq<char>
    decreases n,
{
    if n < 10 {
        seq![spec_digit_character(n as int)]
    } else {
        spec_digits(n / 10).push(spec_digit_character((n % 10) as int))
    }
}

/// The column-image encoding of a number: the encoding of its decimal
/// digits, most significant first.
pub open spec fn spec_number_encoding(n: nat) -> Seq<[u8; 5]> {
    spec_text_encoding(spec_digits(n))
}

/// Powers of ten, for bounding digit counts.
pub open spec fn spec_pow10(k: nat) -> nat
    decreases k,
{
    if k == 0 {
        1
    } else {
        10 * spec_pow10((k - 1) as nat)
    }
}

/// A character contributes at most four columns: at most three glyph
/// columns and one blank separator.
pub proof fn lemma_char_encoding_len(character: char)
    ensures
        1 <= spec_char_encoding(character).len() <= 4,
{
}

/// A text of m characters encodes to at most 4 m columns.
pub proof fn lemma_text_encoding_len(text: Seq<char>)
    ensures
        spec_text_encoding(text).len() <= 4 * text.len(),
    decreases text.len(),
{
    if text.len() > 0 {
        lemma_char_encoding_len(text[0]);
        lemma_text_encoding_len(text.drop_first());
    }
}

/// A number below the k-th power of ten has at most k digits.
pub proof fn lemma_digits_len(n: nat, k: nat)
    requires
        k >= 1,
        n < spec_pow10(k),
    ensures
        1 <= spec_digits(n).len() <= k,
    decreases k,
{
    if n >= 10 {
        assert(k >= 2) by {
            if k == 1 {
                assert(spec_pow10(1) == 10 * spec_pow10(0));
            }
        }
        assert(spec_pow10(k) == 10 * spec_pow10((k - 1) as nat));
        assert(n / 10 < spec_pow10((k - 1) as nat));
        lemma_digits_len(n / 10, (k - 1) as nat);
    }
}

/// Law: a text of one character encodes to exactly the font table's
/// columns for that character followed by one blank separator column.
pub proof fn lemma_single_character_encoding(character: char)
    ensures
        spec_text_encoding(seq![character]) == glyph_columns(character).push(spec_blank_column()),
{
    assert(seq![character].drop_first() =~= Seq::<char>::empty());
    assert(spec_text_encoding(Seq::<char>::empty()) =~= Seq::<[u8; 5]>::empty());
    assert(spec_text_encoding(seq![character]) =~= spec_char_encoding(character));
}

/// Law: a number below ten encodes as its single digit's character
/// encoding, and a larger number as the encoding of its leading digits
/// followed by the encoding of its last digit, with no separators
/// beyond the standard per-character blank column.
pub proof fn lemma_number_encoding_decomposition(n: nat)
    ensures
        n < 10 ==> spec_number_encoding(n) == spec_char_encoding(spec_digit_character(n as int)),
        n >= 10 ==> spec_number_encoding(n) == spec_number_encoding(n / 10) + spec_char_encoding(spec_digit_character((n % 10) as int)),
{
    if n < 10 {
        lemma_single_character_encoding(spec_digit_character(n as int));
    } else {
        lemma_text_encoding_push(spec_digits(n / 10), spec_digit_character((n % 10) as int));
    }
}

/// Appends the encoding of the number's decimal digits, most
/// significant first, each digit through the text path. Reports a
/// capacity error, leaving a full buffer holding the first 32 columns,
/// when the result would not fit.
pub fn add_number_to_image_buffer(number: u16, image_buffer: &mut ImageBuffer) -> (r: Result<
    (),
    CapacityError,
>)
    ensures
        r is Ok <==> old(image_buffer)@.len() + spec_number_encoding(number as nat).len() <= 32,
        r is Ok ==> final(image_buffer)@ == old(image_buffer)@ + spec_number_encoding(number as nat),
        r is Err ==> final(image_buffer)@ == (old(image_buffer)@ + spec_number_encoding(number as nat)).take(32),
    decreases number,
{
    let remainder = number % 10;

    let content: &str = if remainder == 0 {
        "0"
    } else if remainder == 1 {
        "1"
    } else if remainder == 2 {
        "2"
    } else if remainder == 3 {
        "3"
    } else if remainder == 4 {
        "4"
    } else if remainder == 5 {
        "5"
    } else if remainder == 6 {
        "6"
    } else if remainder == 7 {
        "7"
    } else if remainder == 8 {
        "8"
    } else {
        "9"
    };
    proof {
        reveal_strlit("0");
        reveal_strlit("1");
        reveal_strlit("2");
        reveal_strlit("3");
        reveal_strlit("4");
        reveal_strlit("5");
        reveal_strlit("6");
        reveal_strlit("7");
        reveal_strlit("8");
        reveal_strlit("9");
        assert(content@ =~= seq![spec_digit_character(remainder as int)]);
    }

    let remaining_number = number - remainder;
    if remaining_number != 0 {
        proof {
            assert(remaining_number / 10 == number as int / 10);
        }
        match add_number_to_image_buffer(remaining_number / 10, image_buffer) {
            Ok(()) => {},
            Err(e) => {
                proof {
                    lemma_number_encoding_decomposition(number as nat);
                    lemma_take_extension(
                        old(image_buffer)@ + spec_number_encoding((number / 10) as nat),
                        spec_char_encoding(spec_digit_character((number % 10) as int)),
                    );
                    assert((old(image_buffer)@ + spec_number_encoding((number / 10) as nat))
                        + spec_char_encoding(spec_digit_character((number % 10) as int)) =~= old(
                        image_buffer,
                    )@ + spec_number_encoding(number as nat));
                }
                return Err(e);
            },
        }
    }

    let result = add_content_to_image_buffer(content, image_buffer);
    proof {
        lemma_number_encoding_decomposition(number as nat);
        lemma_single_character_encoding(spec_digit_character(remainder as int));
        if number >= 10 {
            assert((old(image_buffer)@ + spec_number_encoding((number / 10) as nat))
                + spec_text_encoding(content@) =~= old(image_buffer)@ + spec_number_encoding(
                number as nat,
            ));
        }
    }
    result
}

/// Encodes a number as a fresh image buffer: its digits' columns
/// followed by one full blank frame, or a capacity error if that would
/// not fit.
pub fn encode_number(number: u16) -> (r: Result<ImageBuffer, CapacityError>)
    ensures
        r is Ok <==> spec_number_encoding(number as nat).len() + 5 <= 32,
        r matches Ok(buffer) ==> buffer@ == spec_number_encoding(number as nat) + spec_blank_frame(),
{
    let mut buffer = ImageBuffer::new();
    match add_number_to_image_buffer(number, &mut buffer) {
        Ok(()) => {},
        Err(e) => {
            return Err(e);
        },
    }
    let blanks = blank_frame_columns();
    match push_all(&mut buffer, &blanks) {
        Ok(()) => Ok(buffer),
        Err(e) => Err(e),
    }
}

} // verus!
