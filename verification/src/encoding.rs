//! Trusted wrappers around text encoders of outside crates: percent
//! encoding for query strings, JSON string quoting, and case folding.
use vstd::prelude::*;

verus! {

/// The percent-encoded form of a text, as urlencoding produces it.
pub uninterp spec fn query_encoded_of(s: Seq<char>) -> Seq<char>;

/// The quoted, escaped JSON string literal denoting a text.
pub uninterp spec fn json_quoted_of(s: Seq<char>) -> Seq<char>;

/// The upper-case form of a text.
pub uninterp spec fn upper_of(s: Seq<char>) -> Seq<char>;

/// Relies on urlencoding::encode: percent-encodes every byte outside the
/// unreserved set, determined by the input alone.
#[verifier::external_body]
pub fn query_encode(s: &str) -> (r: String)
    ensures
        r@ == query_encoded_of(s@),
{
    urlencoding::encode(s).into_owned()
}

/// Relies on serde_json::to_string for strings: the quoted and escaped
/// JSON literal, determined by the input alone; quoting a string never
/// fails.
#[verifier::external_body]
pub fn json_quote(s: &str) -> (r: String)
    ensures
        r@ == json_quoted_of(s@),
{
    serde_json::to_string(s).unwrap_or_default()
}

/// Relies on str::to_uppercase: determined by the input alone.
#[verifier::external_body]
pub fn to_upper(s: &str) -> (r: String)
    ensures
        r@ == upper_of(s@),
{
    s.to_uppercase()
}

} // verus!
