//! PKCE material for the authorization-code grant: a random verifier and
//! its SHA-256 challenge, both URL-safe base64 without padding (the `S256`
//! challenge method).
use vstd::prelude::*;

use crate::crypto::{b64url_nopad, b64url_of, random_bytes_32, sha256_text, sha256_text_of};

verus! {

pub struct PkceChallenge {
    pub verifier: String,
    pub challenge: String,
}

/// Draws 32 random bytes, encodes them as the verifier, and publishes the
/// base64url SHA-256 digest of the verifier as the challenge.
pub fn generate() -> (r: PkceChallenge)
    ensures
        r.challenge@ == b64url_of(sha256_text_of(r.verifier@)),
        r.verifier@.len() == 43,
        r.challenge@.len() == 43,
        exists|b: Seq<u8>| b.len() == 32 && r.verifier@ == b64url_of(b),
{
    let bytes = random_bytes_32();
    let verifier = b64url_nopad(&bytes);
    let digest = sha256_text(verifier.as_str());
    let challenge = b64url_nopad(&digest);
    proof {
        assert(bytes@.len() == 32 && verifier@ == b64url_of(bytes@));
    }
    PkceChallenge { verifier, challenge }
}

} // verus!
