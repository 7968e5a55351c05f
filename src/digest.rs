//! Whole-content SHA-256 digests in lowercase hex, and checking a digest
//! against an expected one.

use vstd::prelude::*;
use crate::operation::OpError;
use sha2::Digest;

verus! {

/// The SHA-256 digest of `data`.
pub uninterp spec fn sha256_of(data: Seq<u8>) -> Seq<u8>;

/// `s` in lower case, as Unicode defines it.
pub uninterp spec fn lower_of(s: Seq<char>) -> Seq<char>;

/// The lowercase hex digit for `n` (below 16).
pub open spec fn hex_digit(n: u8) -> char {
    if n < 10 {
        ((48 + n) as u8) as char
    } else {
        ((87 + n) as u8) as char
    }
}

/// Two lowercase hex digits per byte, high nibble first.
pub open spec fn hex_text(b: Seq<u8>) -> Seq<char>
    decreases b.len(),
{
    if b.len() == 0 {
        Seq::empty()
    } else {
        hex_text(b.drop_last()) + seq![hex_digit(b.last() / 16), hex_digit(b.last() % 16)]
    }
}

/// Hex text has two digits per byte.
pub proof fn lemma_hex_text_len(b: Seq<u8>)
    ensures
        hex_text(b).len() == 2 * b.len(),
    decreases b.len(),
{
    if b.len() > 0 {
        lemma_hex_text_len(b.drop_last());
    }
}

/// Relies on `sha2::Sha256::digest`: the 32-byte SHA-256 digest of the input.
#[verifier::external_body]
fn sha256(data: &[u8]) -> (r: Vec<u8>)
    ensures
        r@ == sha256_of(data@),
        r@.len() == 32,
{
    sha2::Sha256::digest(data).to_vec()
}

/// Relies on `hex::encode`: each byte as two lowercase hex digits, high
/// nibble first.
#[verifier::external_body]
fn hex_encode(b: &[u8]) -> (r: String)
    ensures
        r@ == hex_text(b@),
{
    hex::encode(b)
}

/// Relies on `str::to_lowercase`: the result depends on the characters alone.
#[verifier::external_body]
fn lowercase(s: &str) -> (r: String)
    ensures
        r@ == lower_of(s@),
{
    s.to_lowercase()
}

/// The SHA-256 digest of `data` as 64 lowercase hex digits.
pub fn sha256_hex(data: &[u8]) -> (r: String)
    ensures
        r@ == hex_text(sha256_of(data@)),
        r@.len() == 64,
{
    let d = sha256(data);
    proof {
        lemma_hex_text_len(d@);
    }
    hex_encode(d.as_slice())
}

/// A digest (or any bytes) as lowercase hex, two digits per byte.
pub fn digest_hex(digest: &[u8]) -> (r: String)
    ensures
        r@ == hex_text(digest@),
{
    hex_encode(digest)
}

/// Whether the lowercased expected digest `expected_lower` equals the
/// computed digest `actual_hex`.
pub fn digest_matches_lowered(expected_lower: &str, actual_hex: &str) -> (r: bool)
    ensures
        r == (expected_lower@ == actual_hex@),
{
    let a = expected_lower.to_owned();
    let b = actual_hex.to_owned();
    a == b
}

/// Checks a computed digest against an expected one, if any: refused with
/// a verification mismatch unless the expected digest, lowercased, equals it.
pub fn check_digest(expected: Option<&str>, actual_hex: &str) -> (r: Result<(), OpError>)
    ensures
        match expected {
            None => r is Ok,
            Some(e) => if lower_of(e@) == actual_hex@ {
                r is Ok
            } else {
                r matches Err(OpError::VerificationMismatch)
            },
        },
{
    match expected {
        None => Ok(()),
        Some(e) => {
            let lowered = lowercase(e);
            if digest_matches_lowered(lowered.as_str(), actual_hex) {
                Ok(())
            } else {
                Err(OpError::VerificationMismatch)
            }
        },
    }
}

} // verus!
