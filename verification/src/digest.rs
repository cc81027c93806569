//! The cryptographic digest a block's hash is built from: SHA-256 supplied by
//! an outside crate and named at the spec level, then hex-encoded by the
//! verified encoder.

use vstd::prelude::*;
use crate::encoding::{bytes_to_hex, hex_of, lemma_hex_of_len};

verus! {

/// The SHA-256 digest of the UTF-8 bytes of `s`. The digest is a fixed
/// function of its input alone; its value is named, not modeled.
pub uninterp spec fn sha256_of(s: Seq<char>) -> Seq<u8>;

/// Relies on sha2::Sha256::digest: the SHA-256 digest of the input bytes,
/// always 32 bytes, depending on the input alone.
#[verifier::external_body]
fn sha256_bytes(s: &str) -> (r: Vec<u8>)
    ensures
        r@ == sha256_of(s@),
        r@.len() == 32,
{
    <sha2::Sha256 as sha2::Digest>::digest(s.as_bytes()).to_vec()
}

/// The lowercase hexadecimal text of the SHA-256 digest of `s`.
pub open spec fn sha256_hex_of(s: Seq<char>) -> Seq<char> {
    hex_of(sha256_of(s))
}

/// Computes the lowercase hexadecimal SHA-256 digest of `s`.
pub fn sha256_hex(s: &str) -> (r: String)
    ensures
        r@ == sha256_hex_of(s@),
        r@.len() == 64,
{
    let bytes = sha256_bytes(s);
    proof {
        lemma_hex_of_len(bytes@);
    }
    bytes_to_hex(&bytes)
}

} // verus!
