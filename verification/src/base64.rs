//! The last step of building a token: its text in base64.

use crate::text::has_no_zero_byte;
use vstd::prelude::*;

verus! {

/// What the encoder makes of `data`.
pub uninterp spec fn base64_text(data: Seq<u8>) -> Seq<char>;

/// A character of the base64 alphabet, or the padding character `=`.
pub open spec fn is_base64_char(c: char) -> bool {
    ||| ('A' <= c && c <= 'Z')
    ||| ('a' <= c && c <= 'z')
    ||| ('0' <= c && c <= '9')
    ||| c == '+'
    ||| c == '/'
    ||| c == '='
}

/// Every character is of the base64 alphabet or is the padding character.
pub open spec fn is_base64(s: Seq<char>) -> bool {
    forall|i: int| 0 <= i < s.len() ==> is_base64_char(#[trigger] s[i])
}

/// The length of padded base64 for `n` bytes: four characters for every
/// three bytes or part of three.
pub open spec fn padded_len(n: nat) -> nat {
    4 * ((n + 2) / 3)
}

/// Encodes `data`.
///
/// Trusted: this is `easy_base64::encode`. It walks the input three bytes at
/// a time, writes characters of the standard alphabet for each group and
/// then `=` for each byte that the last group lacks. It tells a byte that is
/// lacking from one that is there by comparing with zero, so a group whose
/// third byte is zero comes out shorter than four characters. The contract
/// claims that the text depends on the bytes alone and is made of the
/// alphabet and `=`, and claims the padded length only of input without a
/// zero byte.
#[verifier::external_body]
pub(crate) fn encode(data: &[u8]) -> (text: String)
    ensures
        text@ == base64_text(data@),
        is_base64(text@),
        has_no_zero_byte(data@) ==> text@.len() == padded_len(data@.len()),
{
    easy_base64::encode(data)
}

} // verus!
