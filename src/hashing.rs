//! Content identity: the SHA-256 digest of text, rendered as lowercase hex.
use crate::hexcodec::{hex_encode, hex_of, is_lower_hex, lemma_hex_of_round_trip};
use sha2::Digest;
use vstd::prelude::*;

verus! {

/// The 32-byte SHA-256 digest of the UTF-8 encoding of `s`.
pub uninterp spec fn sha256_of(s: Seq<char>) -> Seq<u8>;

/// Relies on `sha2::Sha256::digest` over the UTF-8 bytes of `s`: its output
/// array is 32 bytes long by its type.
#[verifier::external_body]
fn sha256_bytes(s: &str) -> (r: Vec<u8>)
    ensures
        r@ == sha256_of(s@),
        r@.len() == 32,
{
    sha2::Sha256::digest(s.as_bytes()).to_vec()
}

/// The SHA-256 digest of `input` as 64 lowercase hex digits.
pub fn sha256(input: &str) -> (r: String)
    ensures
        r@ == hex_of(sha256_of(input@)),
        r@.len() == 64,
        is_lower_hex(r@),
{
    let digest = sha256_bytes(input);
    proof {
        lemma_hex_of_round_trip(digest@);
    }
    hex_encode(digest.as_slice())
}

} // verus!
