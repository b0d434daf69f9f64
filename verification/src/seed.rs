//! The random value that makes each token different from the last.

use crate::text::is_lower_hex;
use vstd::prelude::*;

verus! {

/// The number of characters of a seed.
pub const SEED_LEN: usize = 32;

/// A seed is 128 bits written as 32 lower-case hexadecimal digits.
pub open spec fn is_seed(s: Seq<char>) -> bool {
    s.len() == SEED_LEN && is_lower_hex(s)
}

/// A seed as the generator makes them: a version 4 UUID, whose thirteenth
/// digit is the version and whose seventeenth digit holds the variant.
pub open spec fn is_fresh_seed(s: Seq<char>) -> bool {
    &&& is_seed(s)
    &&& s[12] == '4'
    &&& (s[16] == '8' || s[16] == '9' || s[16] == 'a' || s[16] == 'b')
}

/// A new random seed.
///
/// Trusted: this is `uuid::Uuid::new_v4`, formatted through `as_simple`,
/// which writes the sixteen bytes as lower-case hexadecimal digits without
/// hyphens. `new_v4` sets the version to 4 and the variant to RFC 4122 and
/// takes the other 122 bits from the operating system. Nothing is claimed
/// of those bits, so two calls may or may not agree. Where the operating
/// system has no random bytes to give, `new_v4` panics; no argument decides
/// that.
#[verifier::external_body]
pub(crate) fn fresh_seed() -> (seed: String)
    ensures
        is_fresh_seed(seed@),
{
    uuid::Uuid::new_v4().as_simple().to_string()
}

} // verus!
