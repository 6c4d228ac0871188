//! Proof-of-possession (DPoP) key material and proof construction.
//!
//! A proof is a compact signed token whose header carries the public key
//! and whose claims bind one HTTP method and URL, an issue time, an
//! optional server nonce, and optionally the digest of the access token it
//! accompanies. The claim set is built and serialized by verified code;
//! only the ES256 signature itself is trusted.
use vstd::prelude::*;

use jsonwebtoken::jwk::{
    AlgorithmParameters, EllipticCurve, EllipticCurveKeyParameters, EllipticCurveKeyType, Jwk,
};
use jsonwebtoken::{Algorithm, EncodingKey, Header};
use p256::ecdsa::SigningKey;
use p256::elliptic_curve::sec1::ToSec1Point;
use p256::pkcs8::EncodePrivateKey;
use rand::RngCore;

use crate::crypto::{b64url_nopad, b64url_of, sha256_text, sha256_text_of, uuid_string};
use crate::encoding::{json_quote, json_quoted_of, to_upper, upper_of};
use crate::error::Error;
use crate::strutil::{spec_dec, u64_to_dec};

verus! {

/// The public half of a signing key, as the two coordinates of a P-256
/// point, URL-safe base64 without padding.
pub struct JwkPublicKey {
    pub x: String,
    pub y: String,
}

/// A freshly generated signing key: the private half as PKCS#8 PEM text,
/// the public half as JWK coordinates.
pub struct DpopKeyPair {
    pub private_key_pem: String,
    pub public_jwk: JwkPublicKey,
}

/// Relies on p256's key generation and PKCS#8 export: a fresh key pair
/// whose public coordinates are 32 bytes each, so their unpadded base64
/// forms are 43 characters; the key itself is random.
#[verifier::external_body]
pub fn generate_keypair() -> (r: Result<DpopKeyPair, Error>)
    ensures
        r is Ok ==> r->Ok_0.public_jwk.x@.len() == 43 && r->Ok_0.public_jwk.y@.len() == 43,
        r is Err ==> r->Err_0 is Signing,
{
    let mut bytes = [0u8; 32];
    let signing_key = loop {
        rand::rngs::OsRng.fill_bytes(&mut bytes);
        if let Ok(key) = SigningKey::from_slice(&bytes) { break key; }
    };
    let pem = signing_key.to_pkcs8_pem(Default::default())
        .map_err(|_| Error::Signing(String::from("could not export the private key")))?.to_string();
    let point = signing_key.verifying_key().to_sec1_point(false);
    let (x, y) = match (point.x(), point.y()) {
        (Some(x), Some(y)) => (b64url_nopad(&x.to_vec()), b64url_nopad(&y.to_vec())),
        _ => return Err(Error::Signing(String::from("degenerate public key point"))),
    };
    Ok(DpopKeyPair { private_key_pem: pem, public_jwk: JwkPublicKey { x, y } })
}

/// The claim set of one proof.
pub struct DpopClaims {
    /// A fresh random proof identifier.
    pub jti: String,
    /// The upper-cased HTTP method.
    pub htm: String,
    /// The exact target URL.
    pub htu: String,
    /// Issue time, seconds since the Unix epoch.
    pub iat: u64,
    /// The server-issued nonce, when one was challenged.
    pub nonce: Option<String>,
    /// The base64url SHA-256 digest of the access token, when the proof
    /// accompanies one.
    pub ath: Option<String>,
}

/// Builds the claim set for one request: `jti`, `htm`, `htu` and `iat` are
/// always present; `nonce` is carried exactly when one was supplied; `ath`
/// is the token digest, present exactly when a token was supplied.
pub fn build_claims(
    method: &str,
    url: &str,
    iat: u64,
    jti: String,
    nonce: Option<&str>,
    access_token: Option<&str>,
) -> (c: DpopClaims)
    ensures
        c.jti@ == jti@,
        c.htm@ == upper_of(method@),
        c.htu@ == url@,
        c.iat == iat,
        match nonce {
            Option::None => c.nonce is None,
            Option::Some(n) => c.nonce matches Option::Some(cn) && cn@ == n@,
        },
        match access_token {
            Option::None => c.ath is None,
            Option::Some(t) => c.ath matches Option::Some(a) && a@ == b64url_of(
                sha256_text_of(t@),
            ),
        },
{
    let ath = match access_token {
        Option::None => Option::None,
        Option::Some(token) => {
            let digest = sha256_text(token);
            Option::Some(b64url_nopad(&digest))
        },
    };
    DpopClaims {
        jti,
        htm: to_upper(method),
        htu: url.to_owned(),
        iat,
        nonce: match nonce {
            Option::None => Option::None,
            Option::Some(n) => Option::Some(n.to_owned()),
        },
        ath,
    }
}

/// The JSON text of a claim set: the four fixed claims in order, then
/// `nonce` and `ath` exactly when present.
pub open spec fn spec_claims_json(c: &DpopClaims) -> Seq<char> {
    "{\"jti\":"@ + json_quoted_of(c.jti@) + ",\"htm\":"@ + json_quoted_of(c.htm@) + ",\"htu\":"@
        + json_quoted_of(c.htu@) + ",\"iat\":"@ + spec_dec(c.iat) + (match c.nonce {
        Option::None => Seq::<char>::empty(),
        Option::Some(n) => ",\"nonce\":"@ + json_quoted_of(n@),
    }) + (match c.ath {
        Option::None => Seq::<char>::empty(),
        Option::Some(a) => ",\"ath\":"@ + json_quoted_of(a@),
    }) + "}"@
}

/// Serializes a claim set to JSON.
pub fn claims_to_json(c: &DpopClaims) -> (r: String)
    ensures
        r@ == spec_claims_json(c),
{
    let mut out = String::from_str("{\"jti\":");
    out.append(json_quote(c.jti.as_str()).as_str());
    out.append(",\"htm\":");
    out.append(json_quote(c.htm.as_str()).as_str());
    out.append(",\"htu\":");
    out.append(json_quote(c.htu.as_str()).as_str());
    out.append(",\"iat\":");
    out.append(u64_to_dec(c.iat).as_str());
    match &c.nonce {
        Option::None => {},
        Option::Some(n) => {
            out.append(",\"nonce\":");
            out.append(json_quote(n.as_str()).as_str());
        },
    }
    match &c.ath {
        Option::None => {},
        Option::Some(a) => {
            out.append(",\"ath\":");
            out.append(json_quote(a.as_str()).as_str());
        },
    }
    out.append("}");
    proof {
        assert(out@ =~= spec_claims_json(c));
    }
    out
}

/// Relies on jsonwebtoken::encode with ES256: signs the claims with the
/// private key and wraps them in a compact token whose header carries the
/// public JWK and the proof-of-possession type tag. Fails exactly when the
/// key material is unusable.
#[verifier::external_body]
fn sign_es256(private_key_pem: &str, public_jwk: &JwkPublicKey, claims_json: &str) -> (r: Result<
    String,
    Error,
>)
    ensures
        r is Err ==> r->Err_0 is Signing,
{
    let claims: serde_json::Value = serde_json::from_str(claims_json)
        .map_err(|_| Error::Signing(String::from("claims are not valid JSON")))?;
    let mut header = Header::new(Algorithm::ES256);
    header.typ = Some("dpop+jwt".to_string());
    let ec = EllipticCurveKeyParameters { key_type: EllipticCurveKeyType::EC,
        curve: EllipticCurve::P256, x: public_jwk.x.clone(), y: public_jwk.y.clone() };
    header.jwk = Some(Jwk { common: Default::default(),
        algorithm: AlgorithmParameters::EllipticCurve(ec) });
    let key = EncodingKey::from_ec_pem(private_key_pem.as_bytes())
        .map_err(|_| Error::Signing(String::from("invalid private key")))?;
    jsonwebtoken::encode(&header, &claims, &key)
        .map_err(|_| Error::Signing(String::from("could not sign the proof")))
}

/// Builds and signs one proof. The claim set is built by `build_claims`
/// from a fresh random identifier and the given issue time; failure comes
/// only from the signing step, as `Signing`.
pub fn create_proof(
    private_key_pem: &str,
    public_jwk: &JwkPublicKey,
    http_method: &str,
    http_uri: &str,
    iat: u64,
    nonce: Option<&str>,
    access_token: Option<&str>,
) -> (r: Result<String, Error>)
    ensures
        r is Err ==> r->Err_0 is Signing,
{
    let jti = uuid_string();
    let claims = build_claims(http_method, http_uri, iat, jti, nonce, access_token);
    let json = claims_to_json(&claims);
    sign_es256(private_key_pem, public_jwk, json.as_str())
}

} // verus!
