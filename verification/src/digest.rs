//! SHA-256 file names.

use crypto::digest::Digest;
use crypto::sha2::Sha256;
use vstd::prelude::*;
use vstd::string::*;

verus! {

/// The lowercase hexadecimal SHA-256 digest of the UTF-8 encoding of `text`.
pub uninterp spec fn sha256_hex(text: Seq<char>) -> Seq<char>;

/// SHA-256 takes messages shorter than 2^61 bytes (2^64 bits).
pub const DIGEST_INPUT_LIMIT: u64 = 0x2000_0000_0000_0000;

/// A digit of lowercase hexadecimal notation.
pub open spec fn is_lower_hex(c: char) -> bool {
    ('0' <= c && c <= '9') || ('a' <= c && c <= 'f')
}

/// Calls `Sha256::new`, `Digest::input_str` and `Digest::result_str` of the
/// `crypto` crate. Trusted: the returned string is the digest named by
/// [`sha256_hex`], written as 64 digits out of `0123456789abcdef`. The crate
/// panics on a message of 2^61 bytes or more, which `requires` leaves out.
#[verifier::external_body]
pub(crate) fn sha256_hex_digest(text: &str) -> (digest: String)
    requires
        text.spec_bytes().len() < DIGEST_INPUT_LIMIT,
    ensures
        digest@ == sha256_hex(text@),
        digest@.len() == 64,
        forall|i: int| 0 <= i < digest@.len() ==> is_lower_hex(#[trigger] digest@[i]),
{
    let mut hasher = Sha256::new();
    hasher.input_str(text);
    hasher.result_str()
}

} // verus!
