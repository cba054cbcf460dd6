//! The value glyphs that stand at the right edge of a row: `<X>` and `< >`
//! for a toggle, `<N>` for an integer.

use std::fmt::Write;
use vstd::arithmetic::power::{lemma_pow1, lemma_pow_adds, pow};
use vstd::prelude::*;
use vstd::utf8::{encode_utf8, is_ascii_chars, is_ascii_chars_concat, is_ascii_chars_encode_utf8};

verus! {

/// The bytes that the fixed-capacity buffer for an integer glyph can take.
pub const GLYPH_CAPACITY: usize = 16;

/// The number of bytes that a text takes, which is what the layout counts
/// when it measures a text in character cells.
pub open spec fn byte_len(text: Seq<char>) -> nat {
    encode_utf8(text).len()
}

/// The character for one decimal digit.
pub open spec fn digit_char(d: int) -> char {
    if d == 0 {
        '0'
    } else if d == 1 {
        '1'
    } else if d == 2 {
        '2'
    } else if d == 3 {
        '3'
    } else if d == 4 {
        '4'
    } else if d == 5 {
        '5'
    } else if d == 6 {
        '6'
    } else if d == 7 {
        '7'
    } else if d == 8 {
        '8'
    } else {
        '9'
    }
}

/// A natural number in decimal, most significant digit first, with no
/// leading zeros (zero itself is the single digit `0`).
pub open spec fn digits(n: nat) -> Seq<char>
    decreases n,
{
    if n < 10 {
        seq![digit_char(n as int)]
    } else {
        digits(n / 10).push(digit_char((n % 10) as int))
    }
}

/// An integer in decimal: a minus sign for a negative value, then its
/// magnitude.
pub open spec fn decimal(value: int) -> Seq<char> {
    if value < 0 {
        seq!['-'] + digits((-value) as nat)
    } else {
        digits(value as nat)
    }
}

/// The glyph of an integer entry: its decimal form in angle brackets.
pub open spec fn int_glyph(value: int) -> Seq<char> {
    seq!['<'] + decimal(value) + seq!['>']
}

/// The glyph of a toggle: `<X>` when it is on and `< >` when it is off.
pub open spec fn bool_glyph(on: bool) -> Seq<char> {
    if on {
        seq!['<', 'X', '>']
    } else {
        seq!['<', ' ', '>']
    }
}

/// Decimal digits are ASCII, and a number below `10^k` has at most `k` of
/// them.
pub proof fn lemma_digits(n: nat, k: nat)
    requires
        k >= 1,
        n < pow(10, k),
    ensures
        1 <= digits(n).len() <= k,
        is_ascii_chars(digits(n)),
    decreases n,
{
    if n >= 10 {
        lemma_pow1(10);
        if k > 1 {
            lemma_pow_adds(10, (k - 1) as nat, 1);
            lemma_digits(n / 10, (k - 1) as nat);
        }
    }
}

/// Every 32-bit integer is written with at most eleven characters, all of
/// them ASCII, so that it takes as many bytes as it has characters.
pub proof fn lemma_decimal_len(value: i32)
    ensures
        1 <= decimal(value as int).len() <= 11,
        is_ascii_chars(decimal(value as int)),
        byte_len(decimal(value as int)) == decimal(value as int).len(),
{
    let magnitude: nat = if value < 0 {
        (-(value as int)) as nat
    } else {
        value as nat
    };
    assert(pow(10, 10) == 10_000_000_000int) by {
        reveal_with_fuel(pow, 11);
    }
    lemma_digits(magnitude, 10);
    is_ascii_chars_encode_utf8(decimal(value as int));
}

/// The glyph of a 32-bit integer has at most thirteen characters, all of
/// them ASCII, so it fits a glyph buffer.
pub proof fn lemma_int_glyph_fits(value: i32)
    ensures
        3 <= int_glyph(value as int).len() <= 13,
        is_ascii_chars(int_glyph(value as int)),
        byte_len(int_glyph(value as int)) == int_glyph(value as int).len(),
        byte_len(int_glyph(value as int)) <= GLYPH_CAPACITY,
{
    lemma_decimal_len(value);
    is_ascii_chars_encode_utf8(int_glyph(value as int));
}

/// Both toggle glyphs are three ASCII characters.
pub proof fn lemma_bool_glyph_len(on: bool)
    ensures
        bool_glyph(on).len() == 3,
        byte_len(bool_glyph(on)) == 3,
{
    is_ascii_chars_encode_utf8(bool_glyph(on));
}

/// A buffer for one glyph: a `heapless::String` of `GLYPH_CAPACITY` bytes,
/// which lives on the stack and never grows.
#[verifier::external_body]
pub struct GlyphBuffer {
    text: heapless::String<heapless::consts::U16>,
}

/// The text that a glyph buffer holds.
pub uninterp spec fn buffer_text(buffer: GlyphBuffer) -> Seq<char>;

impl GlyphBuffer {
    /// `heapless::String::new`: a buffer that holds no text yet.
    #[verifier::external_body]
    pub(crate) fn new() -> (buffer: GlyphBuffer)
        ensures
            buffer_text(buffer) == Seq::<char>::empty(),
    {
        GlyphBuffer { text: heapless::String::new() }
    }

    /// `heapless::String::push_str`: appends `text` if its bytes fit into
    /// what is left of the capacity, and changes nothing if they do not. The
    /// result says which of the two happened.
    #[verifier::external_body]
    pub(crate) fn push_str(&mut self, text: &str) -> (pushed: bool)
        ensures
            pushed == (byte_len(buffer_text(*old(self))) + byte_len(text@) <= GLYPH_CAPACITY),
            pushed ==> buffer_text(*final(self)) == buffer_text(*old(self)) + text@,
            !pushed ==> buffer_text(*final(self)) == buffer_text(*old(self)),
    {
        self.text.push_str(text).is_ok()
    }

    /// `write!` with `{}` on the buffer, which goes through the
    /// `core::fmt::Write` of `heapless::String`: it appends what `Display`
    /// prints for an `i32`, that is the integer in decimal with a minus sign
    /// when it is negative. Every piece is appended while it fits, so the
    /// whole has been appended whenever the result is `true`, and the result
    /// is `true` whenever the whole fits.
    #[verifier::external_body]
    pub(crate) fn write_decimal(&mut self, value: i32) -> (written: bool)
        ensures
            written ==> buffer_text(*final(self)) == buffer_text(*old(self)) + decimal(
                value as int,
            ),
            byte_len(buffer_text(*old(self))) + byte_len(decimal(value as int)) <= GLYPH_CAPACITY
                ==> written,
    {
        write!(self.text, "{}", value).is_ok()
    }

    /// `heapless::String::as_str`: the text that the buffer holds.
    #[verifier::external_body]
    pub(crate) fn as_str(&self) -> (text: &str)
        ensures
            text@ == buffer_text(*self),
    {
        self.text.as_str()
    }
}

/// The glyph of an integer entry, written into a buffer of its own.
pub(crate) fn int_glyph_buffer(value: i32) -> (glyph: GlyphBuffer)
    ensures
        buffer_text(glyph) == int_glyph(value as int),
{
    let mut glyph = GlyphBuffer::new();
    proof {
        reveal_strlit("<");
        reveal_strlit(">");
        lemma_decimal_len(value);
        let bracket = seq!['<'];
        let number = decimal(value as int);
        assert("<"@ =~= bracket);
        assert(">"@ =~= seq!['>']);
        assert(Seq::<char>::empty() + bracket =~= bracket);
        is_ascii_chars_concat(bracket + number, bracket, number);
        is_ascii_chars_encode_utf8(Seq::<char>::empty());
        is_ascii_chars_encode_utf8(bracket);
        is_ascii_chars_encode_utf8(bracket + number);
        is_ascii_chars_encode_utf8(seq!['>']);
    }
    let opened = glyph.push_str("<");
    assert(opened);
    let written = glyph.write_decimal(value);
    assert(written);
    let closed = glyph.push_str(">");
    assert(closed);
    glyph
}

/// The glyph of an integer entry as text.
pub fn int_glyph_text(value: i32) -> (text: String)
    ensures
        text@ == int_glyph(value as int),
{
    int_glyph_buffer(value).as_str().to_owned()
}

/// The glyph of a toggle as text.
pub fn bool_glyph_text(on: bool) -> (text: &'static str)
    ensures
        text@ == bool_glyph(on),
{
    if on {
        proof {
            reveal_strlit("<X>");
        }
        assert("<X>"@ =~= bool_glyph(true));
        "<X>"
    } else {
        proof {
            reveal_strlit("< >");
        }
        assert("< >"@ =~= bool_glyph(false));
        "< >"
    }
}

} // verus!
