//! The two digests that a token is made of, each as the hexadecimal text that
//! goes into it.

use crate::text::is_lower_hex;
use vstd::prelude::*;

verus! {

/// The SHA-256 digest of `data`, written as 64 lower-case hexadecimal digits.
pub uninterp spec fn sha256_hex(data: Seq<u8>) -> Seq<char>;

/// The SHA-1 digest of `data`, written as 40 lower-case hexadecimal digits.
pub uninterp spec fn sha1_hex(data: Seq<u8>) -> Seq<char>;

/// The number of characters of [`sha256_hex`].
pub const SHA256_HEX_LEN: usize = 64;

/// The number of characters of [`sha1_hex`].
pub const SHA1_HEX_LEN: usize = 40;

/// Hashes `data` with SHA-256.
///
/// Trusted: this is `sha256::digest` on a byte slice, which hashes the bytes
/// and hands the 32 bytes of the digest to `hex::encode`. The contract claims
/// that the text depends on the bytes alone, and that it is 64 lower-case
/// hexadecimal digits.
#[verifier::external_body]
pub(crate) fn sha256_hex_digest(data: &[u8]) -> (hex: String)
    ensures
        hex@ == sha256_hex(data@),
        hex@.len() == SHA256_HEX_LEN,
        is_lower_hex(hex@),
{
    sha256::digest(data)
}

/// Hashes `data` with SHA-1.
///
/// Trusted: this feeds the bytes to a new `sha1_smol::Sha1` and formats its
/// `digest()`, which writes each of the five words of the state as eight
/// lower-case hexadecimal digits. The contract claims that the text depends
/// on the bytes alone, and that it is 40 lower-case hexadecimal digits.
/// `sha1_smol` counts the bits of its input in 64 bits; a slice long enough
/// to overflow that count takes more memory than a machine has.
#[verifier::external_body]
pub(crate) fn sha1_hex_digest(data: &[u8]) -> (hex: String)
    ensures
        hex@ == sha1_hex(data@),
        hex@.len() == SHA1_HEX_LEN,
        is_lower_hex(hex@),
{
    let mut hash = sha1_smol::Sha1::new();
    hash.update(data);
    hash.digest().to_string()
}

} // verus!
