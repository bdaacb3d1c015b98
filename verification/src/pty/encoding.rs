//! Conversion between wide strings (UTF-16 code units, as Windows holds text)
//! and the UTF-8 bytes that travel through the streams of a pseudoterminal.
//!
//! Both directions are total. A surrogate without its partner, and a byte that
//! starts no well-formed UTF-8 sequence, each become one U+FFFD.

use vstd::prelude::*;
use vstd::utf8::*;

verus! {

/// The scalar that stands in for what cannot be converted.
pub const REPLACEMENT: u32 = 0xFFFD;

/// A unit in the first half of the surrogate range.
pub open spec fn is_high_surrogate(unit: u16) -> bool {
    0xD800 <= unit <= 0xDBFF
}

/// A unit in the second half of the surrogate range.
pub open spec fn is_low_surrogate(unit: u16) -> bool {
    0xDC00 <= unit <= 0xDFFF
}

/// Whether the wide string starts with a surrogate pair.
pub open spec fn starts_with_pair(wide: Seq<u16>) -> bool {
    wide.len() >= 2 && is_high_surrogate(wide[0]) && is_low_surrogate(wide[1])
}

/// The scalar that a surrogate pair stands for.
pub open spec fn pair_scalar(high: u16, low: u16) -> u32 {
    (0x10000 + (high - 0xD800) * 0x400 + (low - 0xDC00)) as u32
}

/// The scalar at the front of a wide string: the unit itself, the scalar of a
/// surrogate pair, or U+FFFD for a surrogate without its partner.
pub open spec fn first_wide_scalar(wide: Seq<u16>) -> u32
    recommends
        wide.len() > 0,
{
    if starts_with_pair(wide) {
        pair_scalar(wide[0], wide[1])
    } else if is_high_surrogate(wide[0]) || is_low_surrogate(wide[0]) {
        REPLACEMENT
    } else {
        wide[0] as u32
    }
}

/// The number of units that the scalar at the front takes.
pub open spec fn first_wide_width(wide: Seq<u16>) -> int
    recommends
        wide.len() > 0,
{
    if starts_with_pair(wide) {
        2
    } else {
        1
    }
}

/// The characters of a wide string.
pub open spec fn chars_of_wide(wide: Seq<u16>) -> Seq<char>
    decreases wide.len(),
{
    if wide.len() == 0 {
        seq![]
    } else {
        seq![first_wide_scalar(wide) as char] + chars_of_wide(wide.skip(first_wide_width(wide)))
    }
}

/// A wide string in which every surrogate is part of a pair.
pub open spec fn well_formed_wide(wide: Seq<u16>) -> bool
    decreases wide.len(),
{
    wide.len() != 0 ==> {
        &&& starts_with_pair(wide) || !(is_high_surrogate(wide[0]) || is_low_surrogate(wide[0]))
        &&& well_formed_wide(wide.skip(first_wide_width(wide)))
    }
}

/// The units of one scalar: itself below 0x10000, a surrogate pair above.
pub open spec fn wide_of_scalar(scalar: u32) -> Seq<u16> {
    if scalar < 0x10000 {
        seq![scalar as u16]
    } else {
        seq![
            (0xD800 + (scalar - 0x10000) / 0x400) as u16,
            (0xDC00 + (scalar - 0x10000) % 0x400) as u16,
        ]
    }
}

/// The wide string of a sequence of characters.
pub open spec fn wide_of_chars(chars: Seq<char>) -> Seq<u16>
    decreases chars.len(),
{
    if chars.len() == 0 {
        seq![]
    } else {
        wide_of_scalar(chars[0] as u32) + wide_of_chars(chars.drop_first())
    }
}

/// The scalar read at the front of a byte string: the one encoded there, or
/// U+FFFD where no well-formed sequence starts.
pub open spec fn first_byte_scalar(bytes: Seq<u8>) -> u32
    recommends
        bytes.len() > 0,
{
    if valid_first_scalar(bytes) {
        decode_first_scalar(bytes)
    } else {
        REPLACEMENT
    }
}

/// The number of bytes that the scalar at the front takes: its encoding, or
/// the one byte that is replaced.
pub open spec fn first_byte_width(bytes: Seq<u8>) -> int
    recommends
        bytes.len() > 0,
{
    if valid_first_scalar(bytes) {
        length_of_first_scalar(bytes)
    } else {
        1
    }
}

/// The characters of a byte string read as UTF-8.
pub open spec fn chars_of_utf8(bytes: Seq<u8>) -> Seq<char>
    decreases bytes.len(),
{
    if bytes.len() == 0 {
        seq![]
    } else {
        proof {
            lemma_first_byte_scalar(bytes);
        }
        seq![first_byte_scalar(bytes) as char] + chars_of_utf8(
            bytes.skip(first_byte_width(bytes)),
        )
    }
}

/// The UTF-8 bytes of a wide string.
pub open spec fn utf8_of_wide(wide: Seq<u16>) -> Seq<u8> {
    encode_utf8(chars_of_wide(wide))
}

/// The wide string of UTF-8 bytes.
pub open spec fn wide_of_utf8(bytes: Seq<u8>) -> Seq<u16> {
    wide_of_chars(chars_of_utf8(bytes))
}

/// The scalar at the front of a wide string is a Unicode scalar.
pub proof fn lemma_first_wide_scalar(wide: Seq<u16>)
    requires
        wide.len() > 0,
    ensures
        is_scalar(first_wide_scalar(wide)),
        (first_wide_scalar(wide) as char) as u32 == first_wide_scalar(wide),
        starts_with_pair(wide) ==> 0x10000 <= first_wide_scalar(wide) <= 0x10FFFF,
{
}

/// The scalar read at the front of a byte string is a Unicode scalar, and its
/// width stays inside the string.
pub proof fn lemma_first_byte_scalar(bytes: Seq<u8>)
    requires
        bytes.len() > 0,
    ensures
        is_scalar(first_byte_scalar(bytes)),
        (first_byte_scalar(bytes) as char) as u32 == first_byte_scalar(bytes),
        1 <= first_byte_width(bytes) <= bytes.len(),
{
    if valid_first_scalar(bytes) {
        let b0 = bytes[0];
        if is_leading_byte_width_1(b0) {
            assert((b0 & 0x7F) as u32 <= 0x7F) by (bit_vector);
        } else if is_leading_byte_width_2(b0) {
            let b1 = bytes[1];
            assert((((b0 & 0x1F) as u32) << 6) | ((b1 & 0x3F) as u32) <= 0x7FF) by (bit_vector);
        } else if is_leading_byte_width_3(b0) {
            let b1 = bytes[1];
            let b2 = bytes[2];
            assert((((b0 & 0x0F) as u32) << 12) | (((b1 & 0x3F) as u32) << 6) | ((b2 & 0x3F) as u32)
                <= 0xFFFF) by (bit_vector);
        } else {
        }
    }
}

/// How the bytes of a non-empty wide string start.
pub proof fn lemma_utf8_of_wide_unfold(wide: Seq<u16>)
    requires
        wide.len() > 0,
    ensures
        utf8_of_wide(wide) == encode_scalar(first_wide_scalar(wide)) + utf8_of_wide(
            wide.skip(first_wide_width(wide)),
        ),
{
    lemma_first_wide_scalar(wide);
    let head = first_wide_scalar(wide) as char;
    let tail = chars_of_wide(wide.skip(first_wide_width(wide)));
    let chars = chars_of_wide(wide);
    assert(chars == seq![head] + tail);
    assert(chars.drop_first() =~= tail);
}

/// How the wide string of non-empty bytes starts.
pub proof fn lemma_wide_of_utf8_unfold(bytes: Seq<u8>)
    requires
        bytes.len() > 0,
    ensures
        wide_of_utf8(bytes) == wide_of_scalar(first_byte_scalar(bytes)) + wide_of_utf8(
            bytes.skip(first_byte_width(bytes)),
        ),
{
    lemma_first_byte_scalar(bytes);
    let head = first_byte_scalar(bytes) as char;
    let tail = chars_of_utf8(bytes.skip(first_byte_width(bytes)));
    let chars = chars_of_utf8(bytes);
    assert(chars == seq![head] + tail);
    assert(chars.drop_first() =~= tail);
}

/// On well-formed UTF-8 the characters read are those that the bytes encode.
pub proof fn lemma_chars_of_valid_utf8(bytes: Seq<u8>)
    requires
        valid_utf8(bytes),
    ensures
        chars_of_utf8(bytes) == decode_utf8(bytes),
    decreases bytes.len(),
{
    if bytes.len() > 0 {
        lemma_first_byte_scalar(bytes);
        assert(bytes.skip(first_byte_width(bytes)) =~= pop_first_scalar(bytes));
        lemma_chars_of_valid_utf8(pop_first_scalar(bytes));
    }
}

/// The characters of a well-formed wide string give the same wide string back.
pub proof fn lemma_wide_of_chars_of_wide(wide: Seq<u16>)
    requires
        well_formed_wide(wide),
    ensures
        wide_of_chars(chars_of_wide(wide)) == wide,
    decreases wide.len(),
{
    if wide.len() > 0 {
        lemma_first_wide_scalar(wide);
        let width = first_wide_width(wide);
        let rest = wide.skip(width);
        let chars = chars_of_wide(wide);
        lemma_wide_of_chars_of_wide(rest);
        assert(chars.drop_first() =~= chars_of_wide(rest));
        assert(wide_of_scalar(first_wide_scalar(wide)) =~= wide.take(width));
        assert(wide.take(width) + rest =~= wide);
    }
}

/// The wide string of any characters is well formed and holds those characters.
pub proof fn lemma_chars_of_wide_of_chars(chars: Seq<char>)
    ensures
        well_formed_wide(wide_of_chars(chars)),
        chars_of_wide(wide_of_chars(chars)) == chars,
    decreases chars.len(),
{
    if chars.len() > 0 {
        let scalar = chars[0] as u32;
        char_is_scalar(chars[0]);
        char_u32_cast(chars[0], scalar);
        let head = wide_of_scalar(scalar);
        let tail = wide_of_chars(chars.drop_first());
        let wide = wide_of_chars(chars);
        lemma_chars_of_wide_of_chars(chars.drop_first());
        assert(wide == head + tail);
        assert(wide.skip(head.len() as int) =~= tail);
        assert(first_wide_width(wide) == head.len());
        assert(first_wide_scalar(wide) == scalar);
        assert(chars_of_wide(wide) =~= seq![chars[0]] + chars.drop_first());
        assert(seq![chars[0]] + chars.drop_first() =~= chars);
    }
}

/// The bytes written for any wide string are well-formed UTF-8.
pub proof fn lemma_utf8_of_wide_is_valid(wide: Seq<u16>)
    ensures
        valid_utf8(utf8_of_wide(wide)),
{
    encode_utf8_valid_utf8(chars_of_wide(wide));
}

/// Text survives the way out and back: a well-formed wide string, encoded as
/// UTF-8 and decoded again, is the same string, unit for unit. This holds of
/// every character, those outside the basic plane included.
pub proof fn lemma_wide_round_trip(wide: Seq<u16>)
    requires
        well_formed_wide(wide),
    ensures
        wide_of_utf8(utf8_of_wide(wide)) == wide,
{
    let chars = chars_of_wide(wide);
    encode_utf8_valid_utf8(chars);
    lemma_chars_of_valid_utf8(encode_utf8(chars));
    encode_utf8_decode_utf8(chars);
    lemma_wide_of_chars_of_wide(wide);
}

/// Bytes survive the way in and back: well-formed UTF-8, decoded and encoded
/// again, is the same bytes, and what it decodes to is a well-formed wide
/// string.
pub proof fn lemma_utf8_round_trip(bytes: Seq<u8>)
    requires
        valid_utf8(bytes),
    ensures
        well_formed_wide(wide_of_utf8(bytes)),
        utf8_of_wide(wide_of_utf8(bytes)) == bytes,
{
    lemma_chars_of_valid_utf8(bytes);
    lemma_chars_of_wide_of_chars(decode_utf8(bytes));
    decode_utf8_encode_utf8(bytes);
}

/// Appends the UTF-8 encoding of one scalar.
fn push_scalar(bytes: &mut Vec<u8>, scalar: u32)
    requires
        is_scalar(scalar),
    ensures
        final(bytes)@ == old(bytes)@ + encode_scalar(scalar),
{
    if scalar <= 0x7F {
        assert(scalar & 0x7F <= 0x7F) by (bit_vector);
        bytes.push((scalar & 0x7F) as u8);
        assert(bytes@ =~= old(bytes)@ + encode_scalar(scalar));
    } else if scalar <= 0x7FF {
        assert((scalar >> 6) & 0x1F <= 0x1F) by (bit_vector);
        assert(scalar & 0x3F <= 0x3F) by (bit_vector);
        bytes.push(0xC0 | ((scalar >> 6) & 0x1F) as u8);
        bytes.push(0x80 | (scalar & 0x3F) as u8);
        assert(bytes@ =~= old(bytes)@ + encode_scalar(scalar));
    } else if scalar <= 0xFFFF {
        assert((scalar >> 12) & 0x0F <= 0x0F) by (bit_vector);
        assert((scalar >> 6) & 0x3F <= 0x3F) by (bit_vector);
        assert(scalar & 0x3F <= 0x3F) by (bit_vector);
        bytes.push(0xE0 | ((scalar >> 12) & 0x0F) as u8);
        bytes.push(0x80 | ((scalar >> 6) & 0x3F) as u8);
        bytes.push(0x80 | (scalar & 0x3F) as u8);
        assert(bytes@ =~= old(bytes)@ + encode_scalar(scalar));
    } else {
        assert((scalar >> 18) & 0x7 <= 0x7) by (bit_vector);
        assert((scalar >> 12) & 0x3F <= 0x3F) by (bit_vector);
        assert((scalar >> 6) & 0x3F <= 0x3F) by (bit_vector);
        assert(scalar & 0x3F <= 0x3F) by (bit_vector);
        bytes.push(0xF0 | ((scalar >> 18) & 0x7) as u8);
        bytes.push(0x80 | ((scalar >> 12) & 0x3F) as u8);
        bytes.push(0x80 | ((scalar >> 6) & 0x3F) as u8);
        bytes.push(0x80 | (scalar & 0x3F) as u8);
        assert(bytes@ =~= old(bytes)@ + encode_scalar(scalar));
    }
}

/// Appends the UTF-16 units of one scalar.
fn push_wide_scalar(wide: &mut Vec<u16>, scalar: u32)
    requires
        is_scalar(scalar),
    ensures
        final(wide)@ == old(wide)@ + wide_of_scalar(scalar),
{
    if scalar < 0x10000 {
        wide.push(scalar as u16);
        assert(wide@ =~= old(wide)@ + wide_of_scalar(scalar));
    } else {
        let offset: u32 = scalar - 0x10000;
        wide.push((0xD800 + offset / 0x400) as u16);
        wide.push((0xDC00 + offset % 0x400) as u16);
        assert(wide@ =~= old(wide)@ + wide_of_scalar(scalar));
    }
}

/// Encodes a wide string as UTF-8. A surrogate without its partner becomes
/// U+FFFD.
pub fn utf8_from_wide(wide: &Vec<u16>) -> (bytes: Vec<u8>)
    ensures
        bytes@ == utf8_of_wide(wide@),
{
    let mut bytes: Vec<u8> = Vec::new();
    let mut i: usize = 0;
    assert(wide@.skip(0) =~= wide@);
    while i < wide.len()
        invariant
            i <= wide.len(),
            bytes@ + utf8_of_wide(wide@.skip(i as int)) == utf8_of_wide(wide@),
        decreases wide.len() - i,
    {
        let ghost rest = wide@.skip(i as int);
        let unit: u16 = wide[i];
        let mut scalar: u32 = REPLACEMENT;
        let mut width: usize = 1;
        if unit < 0xD800 || unit > 0xDFFF {
            scalar = unit as u32;
        } else if unit <= 0xDBFF && i + 1 < wide.len() {
            let low: u16 = wide[i + 1];
            if 0xDC00 <= low && low <= 0xDFFF {
                scalar = 0x10000 + ((unit - 0xD800) as u32) * 0x400 + ((low - 0xDC00) as u32);
                width = 2;
            }
        }
        proof {
            assert(rest[0] == wide@[i as int]);
            if i + 1 < wide.len() {
                assert(rest[1] == wide@[i + 1]);
            }
            assert(scalar == first_wide_scalar(rest));
            assert(width == first_wide_width(rest));
            lemma_first_wide_scalar(rest);
            lemma_utf8_of_wide_unfold(rest);
            assert(rest.skip(width as int) =~= wide@.skip(i + width));
        }
        let ghost before = bytes@;
        push_scalar(&mut bytes, scalar);
        proof {
            assert(bytes@ + utf8_of_wide(wide@.skip(i + width)) =~= before + utf8_of_wide(rest));
        }
        i = i + width;
    }
    assert(wide@.skip(i as int) =~= Seq::<u16>::empty());
    assert(bytes@ + Seq::<u8>::empty() =~= bytes@);
    bytes
}

/// Reads the scalar encoded at position `i`, and the number of bytes it takes;
/// U+FFFD and one byte where no well-formed sequence starts there.
fn scalar_at(bytes: &Vec<u8>, i: usize) -> (found: (u32, usize))
    requires
        i < bytes.len(),
    ensures
        found.0 == first_byte_scalar(bytes@.skip(i as int)),
        found.1 == first_byte_width(bytes@.skip(i as int)),
{
    let ghost rest = bytes@.skip(i as int);
    let n: usize = bytes.len() - i;
    let b0: u8 = bytes[i];
    assert(rest[0] == b0);
    assert(rest.len() == n);
    if b0 <= 0x7F {
        return ((b0 & 0x7F) as u32, 1);
    }
    if 0xC0 <= b0 && b0 <= 0xDF {
        if n >= 2 {
            let b1: u8 = bytes[i + 1];
            assert(rest[1] == b1);
            if 0x80 <= b1 && b1 <= 0xBF {
                let scalar: u32 = (((b0 & 0x1F) as u32) << 6) | ((b1 & 0x3F) as u32);
                assert((((b0 & 0x1F) as u32) << 6) | ((b1 & 0x3F) as u32) <= 0x7FF)
                    by (bit_vector);
                if scalar >= 0x80 {
                    return (scalar, 2);
                }
            }
        }
        return (REPLACEMENT, 1);
    }
    if 0xE0 <= b0 && b0 <= 0xEF {
        if n >= 3 {
            let b1: u8 = bytes[i + 1];
            let b2: u8 = bytes[i + 2];
            assert(rest[1] == b1);
            assert(rest[2] == b2);
            if 0x80 <= b1 && b1 <= 0xBF && 0x80 <= b2 && b2 <= 0xBF {
                let scalar: u32 = (((b0 & 0x0F) as u32) << 12) | (((b1 & 0x3F) as u32) << 6) | ((b2
                    & 0x3F) as u32);
                if scalar >= 0x800 && !(0xD800 <= scalar && scalar <= 0xDFFF) {
                    return (scalar, 3);
                }
            }
        }
        return (REPLACEMENT, 1);
    }
    if 0xF0 <= b0 && b0 <= 0xF7 {
        if n >= 4 {
            let b1: u8 = bytes[i + 1];
            let b2: u8 = bytes[i + 2];
            let b3: u8 = bytes[i + 3];
            assert(rest[1] == b1);
            assert(rest[2] == b2);
            assert(rest[3] == b3);
            if 0x80 <= b1 && b1 <= 0xBF && 0x80 <= b2 && b2 <= 0xBF && 0x80 <= b3 && b3 <= 0xBF {
                let scalar: u32 = (((b0 & 0x07) as u32) << 18) | (((b1 & 0x3F) as u32) << 12) | (((
                b2 & 0x3F) as u32) << 6) | ((b3 & 0x3F) as u32);
                if 0x10000 <= scalar && scalar <= 0x10FFFF {
                    return (scalar, 4);
                }
            }
        }
        return (REPLACEMENT, 1);
    }
    (REPLACEMENT, 1)
}

/// Decodes UTF-8 bytes into a wide string. Each byte that starts no
/// well-formed sequence becomes U+FFFD.
pub fn wide_from_utf8(bytes: &Vec<u8>) -> (wide: Vec<u16>)
    ensures
        wide@ == wide_of_utf8(bytes@),
{
    let mut wide: Vec<u16> = Vec::new();
    let mut i: usize = 0;
    assert(bytes@.skip(0) =~= bytes@);
    while i < bytes.len()
        invariant
            i <= bytes.len(),
            wide@ + wide_of_utf8(bytes@.skip(i as int)) == wide_of_utf8(bytes@),
        decreases bytes.len() - i,
    {
        let ghost rest = bytes@.skip(i as int);
        let (scalar, width) = scalar_at(bytes, i);
        proof {
            lemma_first_byte_scalar(rest);
            lemma_wide_of_utf8_unfold(rest);
            assert(rest.skip(width as int) =~= bytes@.skip(i + width));
        }
        let ghost before = wide@;
        push_wide_scalar(&mut wide, scalar);
        proof {
            assert(wide@ + wide_of_utf8(bytes@.skip(i + width)) =~= before + wide_of_utf8(rest));
        }
        i = i + width;
    }
    assert(bytes@.skip(i as int) =~= Seq::<u8>::empty());
    assert(wide@ + Seq::<u16>::empty() =~= wide@);
    wide
}

} // verus!
