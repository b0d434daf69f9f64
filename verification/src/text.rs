//! Text as sequences of characters and as UTF-8 bytes: hexadecimal digits,
//! ASCII upper case, and what encoding does to a concatenation.

use vstd::prelude::*;
use vstd::utf8::*;

verus! {

/// One of `0`..`9`, `a`..`f`.
pub open spec fn is_lower_hex_digit(c: char) -> bool {
    ('0' <= c && c <= '9') || ('a' <= c && c <= 'f')
}

/// One of `0`..`9`, `A`..`F`.
pub open spec fn is_upper_hex_digit(c: char) -> bool {
    ('0' <= c && c <= '9') || ('A' <= c && c <= 'F')
}

/// Every character is a lower-case hexadecimal digit.
pub open spec fn is_lower_hex(s: Seq<char>) -> bool {
    forall|i: int| 0 <= i < s.len() ==> is_lower_hex_digit(#[trigger] s[i])
}

/// Every character is an upper-case hexadecimal digit.
pub open spec fn is_upper_hex(s: Seq<char>) -> bool {
    forall|i: int| 0 <= i < s.len() ==> is_upper_hex_digit(#[trigger] s[i])
}

/// No character is U+0000.
pub open spec fn has_no_nul(s: Seq<char>) -> bool {
    forall|i: int| 0 <= i < s.len() ==> #[trigger] s[i] != '\0'
}

/// No byte is zero.
pub open spec fn has_no_zero_byte(bytes: Seq<u8>) -> bool {
    forall|i: int| 0 <= i < bytes.len() ==> #[trigger] bytes[i] != 0
}

/// The number of bytes that the UTF-8 encoding of `s` takes.
pub open spec fn utf8_len(s: Seq<char>) -> nat {
    encode_utf8(s).len()
}

/// `a`..`z` go to `A`..`Z`; every other character stays.
pub open spec fn ascii_upper(c: char) -> char {
    if 'a' <= c && c <= 'z' {
        ((c as u32 - 32) as u32) as char
    } else {
        c
    }
}

/// `s` with each character replaced by its ASCII upper case.
pub open spec fn ascii_uppercase(s: Seq<char>) -> Seq<char> {
    Seq::new(s.len(), |i: int| ascii_upper(s[i]))
}

/// A copy of `s` in ASCII upper case.
///
/// Trusted: this is `str::to_ascii_uppercase`, which std documents as mapping
/// the ASCII letters `a` to `z` to `A` to `Z` and leaving every other
/// character as it is.
#[verifier::external_body]
pub(crate) fn to_ascii_uppercase(s: &str) -> (upper: String)
    ensures
        upper@ == ascii_uppercase(s@),
{
    s.to_ascii_uppercase()
}

/// Upper case turns lower-case hexadecimal digits into upper-case ones, one
/// for one, and two different strings of such digits stay different.
pub proof fn lemma_uppercase_hex(s: Seq<char>, t: Seq<char>)
    requires
        is_lower_hex(s),
        is_lower_hex(t),
    ensures
        ascii_uppercase(s).len() == s.len(),
        is_upper_hex(ascii_uppercase(s)),
        ascii_uppercase(s) == ascii_uppercase(t) ==> s == t,
{
    let up_s = ascii_uppercase(s);
    let up_t = ascii_uppercase(t);
    assert forall|i: int| 0 <= i < up_s.len() implies is_upper_hex_digit(#[trigger] up_s[i]) by {
        assert(is_lower_hex_digit(s[i]));
    }
    if up_s == up_t {
        assert(up_s.len() == s.len() && up_t.len() == t.len());
        assert forall|i: int| 0 <= i < s.len() implies s[i] == t[i] by {
            assert(is_lower_hex_digit(s[i]));
            assert(is_lower_hex_digit(t[i]));
            assert(up_s[i] == up_t[i]);
        }
        assert(s =~= t);
    }
}

/// Hexadecimal digits are ASCII and none of them is U+0000, so such a string
/// takes one byte for each character.
pub proof fn lemma_hex_is_plain(s: Seq<char>)
    requires
        is_lower_hex(s) || is_upper_hex(s),
    ensures
        is_ascii_chars(s),
        has_no_nul(s),
        utf8_len(s) == s.len(),
{
    assert forall|i: int| 0 <= i < s.len() implies '\0' < #[trigger] s[i] <= '\u{7f}' by {
        if is_lower_hex(s) {
            assert(is_lower_hex_digit(s[i]));
        } else {
            assert(is_upper_hex_digit(s[i]));
        }
    }
    is_ascii_chars_encode_utf8(s);
}

/// Encoding a concatenation gives the concatenation of the encodings.
pub proof fn lemma_encode_utf8_concat(a: Seq<char>, b: Seq<char>)
    ensures
        encode_utf8(a + b) == encode_utf8(a) + encode_utf8(b),
        utf8_len(a + b) == utf8_len(a) + utf8_len(b),
    decreases a.len(),
{
    if a.len() == 0 {
        assert(a + b =~= b);
        assert(encode_utf8(a) + encode_utf8(b) =~= encode_utf8(b));
    } else {
        assert((a + b).drop_first() =~= a.drop_first() + b);
        lemma_encode_utf8_concat(a.drop_first(), b);
        assert(encode_utf8(a + b) =~= encode_utf8(a) + encode_utf8(b));
    }
}

/// The encoding of a character other than U+0000 holds no zero byte.
proof fn lemma_scalar_has_no_zero_byte(c: char)
    requires
        c != '\0',
    ensures
        has_no_zero_byte(encode_scalar(c as u32)),
{
    let v = c as u32;
    assert(v != 0);
    if has_width_1_encoding(v) {
        assert((v & 0x7F) as u8 != 0) by (bit_vector)
            requires
                0 < v <= 0x7F,
        ;
    } else {
        assert(0xC0u8 | ((v >> 6) & 0x1F) as u8 != 0) by (bit_vector);
        assert(0xE0u8 | ((v >> 12) & 0x0F) as u8 != 0) by (bit_vector);
        assert(0xF0u8 | ((v >> 18) & 0x7) as u8 != 0) by (bit_vector);
        assert(0x80u8 | (v & 0x3F) as u8 != 0) by (bit_vector);
        assert(0x80u8 | ((v >> 6) & 0x3F) as u8 != 0) by (bit_vector);
        assert(0x80u8 | ((v >> 12) & 0x3F) as u8 != 0) by (bit_vector);
    }
}

/// A string without U+0000 is encoded without a zero byte.
pub proof fn lemma_no_nul_no_zero_byte(s: Seq<char>)
    requires
        has_no_nul(s),
    ensures
        has_no_zero_byte(encode_utf8(s)),
    decreases s.len(),
{
    if s.len() > 0 {
        assert(s[0] != '\0');
        lemma_scalar_has_no_zero_byte(s[0]);
        let rest = s.drop_first();
        assert forall|i: int| 0 <= i < rest.len() implies #[trigger] rest[i] != '\0' by {
            assert(rest[i] == s[i + 1]);
        }
        lemma_no_nul_no_zero_byte(rest);
    }
}

} // verus!
