//! Trusted wrappers around the cryptographic primitives the stack needs:
//! hashing, URL-safe base64, random bytes, and random identifiers.
use vstd::prelude::*;

use base64::Engine;
use base64::engine::general_purpose::URL_SAFE_NO_PAD;
use rand::RngCore;
use sha2::{Digest, Sha256};

verus! {

/// The SHA-256 digest of the UTF-8 bytes of a text.
pub uninterp spec fn sha256_text_of(s: Seq<char>) -> Seq<u8>;

/// The URL-safe, unpadded base64 form of a byte string.
pub uninterp spec fn b64url_of(b: Seq<u8>) -> Seq<char>;

/// Relies on sha2's Sha256: a 32-byte digest determined by the input alone.
#[verifier::external_body]
pub fn sha256_text(s: &str) -> (r: Vec<u8>)
    ensures
        r@ == sha256_text_of(s@),
        r@.len() == 32,
{
    Sha256::digest(s.as_bytes()).to_vec()
}

/// Relies on base64's URL-safe no-padding engine: four output characters
/// for every three input bytes, rounded up, determined by the input alone.
#[verifier::external_body]
pub fn b64url_nopad(b: &Vec<u8>) -> (r: String)
    ensures
        r@ == b64url_of(b@),
        r@.len() == (b@.len() * 4 + 2) / 3,
{
    URL_SAFE_NO_PAD.encode(b)
}

/// Relies on rand's thread-local generator to fill 32 bytes; nothing is
/// promised of their values.
#[verifier::external_body]
pub fn random_bytes_32() -> (r: Vec<u8>)
    ensures
        r@.len() == 32,
{
    let mut bytes = [0u8; 32];
    rand::thread_rng().fill_bytes(&mut bytes);
    bytes.to_vec()
}

/// Relies on uuid's version-4 generator and its hyphenated text form,
/// which is always 36 characters; the value itself is random.
#[verifier::external_body]
pub fn uuid_string() -> (r: String)
    ensures
        r@.len() == 36,
{
    uuid::Uuid::new_v4().to_string()
}

} // verus!
