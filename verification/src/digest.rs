//! SHA-256 digests of tokens, as lower-case hexadecimal text.

use vstd::prelude::*;
use sha2::{Digest, Sha256};
use crate::text::{hex_lower, to_hex_lower};

verus! {

/// The SHA-256 digest of the UTF-8 encoding of a text.
pub uninterp spec fn sha256_of(input: Seq<char>) -> Seq<u8>;

/// `Sha256::new().chain_update(input).finalize()`: the SHA-256 digest of the
/// bytes of `input`. The contract claims that the digest is a function of the
/// text alone and that it is 32 bytes long, as SHA-256 output always is.
#[verifier::external_body]
fn sha256_digest(input: &str) -> (r: Vec<u8>)
    ensures
        r@ == sha256_of(input@),
        r@.len() == 32,
{
    Sha256::new().chain_update(input).finalize().to_vec()
}

/// The SHA-256 digest of `input` written as 64 lower-case hexadecimal digits,
/// two per byte, as `format!("{:x}", ..)` writes a digest.
pub fn sha256(input: &str) -> (r: String)
    ensures
        r@ == hex_lower(sha256_of(input@)),
        r@.len() == 64,
{
    let d = sha256_digest(input);
    to_hex_lower(d.as_slice())
}

} // verus!
