//! The session capability: given an HTTP method, target URL, and optional
//! server nonce, a session yields the authorization headers to attach to
//! that exact request.
use vstd::prelude::*;

use crate::clock::now_seconds;
use crate::dpop::{create_proof, JwkPublicKey};
use crate::error::Error;

verus! {

/// Authorization material for one account: the owning identifier, the
/// repository endpoint, and per-request headers.
pub trait Session {
    spec fn spec_did(&self) -> Seq<char>;

    spec fn spec_pds_url(&self) -> Seq<char>;

    /// The authenticated user's identifier.
    fn did(&self) -> (r: &str)
        ensures
            r@ == self.spec_did(),
    ;

    /// The user's repository endpoint.
    fn pds_url(&self) -> (r: &str)
        ensures
            r@ == self.spec_pds_url(),
    ;

    /// The header names and values to attach to one request.
    fn get_auth_headers(&self, method: &str, url: &str, nonce: Option<&str>) -> (r: Result<
        Vec<(String, String)>,
        Error,
    >);
}

/// A static bearer-token session: one `Authorization` header, the same for
/// every request, ignoring method, URL and nonce.
pub struct BearerSession {
    did: String,
    pds_url: String,
    access_token: String,
}

impl BearerSession {
    pub fn new(did: &str, pds_url: &str, access_token: &str) -> (r: BearerSession)
        ensures
            r.spec_did() == did@,
            r.spec_pds_url() == pds_url@,
            r.spec_token() == access_token@,
    {
        BearerSession {
            did: did.to_owned(),
            pds_url: pds_url.to_owned(),
            access_token: access_token.to_owned(),
        }
    }

    pub closed spec fn spec_token(&self) -> Seq<char> {
        self.access_token@
    }
}

impl Session for BearerSession {
    closed spec fn spec_did(&self) -> Seq<char> {
        self.did@
    }

    closed spec fn spec_pds_url(&self) -> Seq<char> {
        self.pds_url@
    }

    fn did(&self) -> (r: &str) {
        self.did.as_str()
    }

    fn pds_url(&self) -> (r: &str) {
        self.pds_url.as_str()
    }

    /// Always one header: `Authorization: Bearer <token>`.
    fn get_auth_headers(&self, method: &str, url: &str, nonce: Option<&str>) -> (r: Result<
        Vec<(String, String)>,
        Error,
    >)
        ensures
            r is Ok,
            r->Ok_0@.len() == 1,
            r->Ok_0@[0].0@ == "Authorization"@,
            r->Ok_0@[0].1@ == "Bearer "@ + self.spec_token(),
    {
        let mut value = String::from_str("Bearer ");
        value.append(self.access_token.as_str());
        let mut headers: Vec<(String, String)> = Vec::new();
        headers.push((String::from_str("Authorization"), value));
        Ok(headers)
    }
}

/// A proof-of-possession session: an `Authorization` header carrying the
/// access token, plus a freshly signed proof bound to the request and to
/// the token's digest.
pub struct DpopSession {
    did: String,
    pds_url: String,
    access_token: String,
    dpop_private_key_pem: String,
    dpop_public_jwk: JwkPublicKey,
}

impl DpopSession {
    pub fn new(
        did: &str,
        pds_url: &str,
        access_token: &str,
        dpop_private_key_pem: &str,
        dpop_public_jwk: JwkPublicKey,
    ) -> (r: DpopSession)
        ensures
            r.spec_did() == did@,
            r.spec_pds_url() == pds_url@,
            r.spec_token() == access_token@,
            r.spec_private_key_pem() == dpop_private_key_pem@,
            r.spec_jwk_x() == dpop_public_jwk.x@,
            r.spec_jwk_y() == dpop_public_jwk.y@,
    {
        DpopSession {
            did: did.to_owned(),
            pds_url: pds_url.to_owned(),
            access_token: access_token.to_owned(),
            dpop_private_key_pem: dpop_private_key_pem.to_owned(),
            dpop_public_jwk,
        }
    }

    pub closed spec fn spec_token(&self) -> Seq<char> {
        self.access_token@
    }

    pub closed spec fn spec_private_key_pem(&self) -> Seq<char> {
        self.dpop_private_key_pem@
    }

    pub closed spec fn spec_jwk_x(&self) -> Seq<char> {
        self.dpop_public_jwk.x@
    }

    pub closed spec fn spec_jwk_y(&self) -> Seq<char> {
        self.dpop_public_jwk.y@
    }
}

impl Session for DpopSession {
    closed spec fn spec_did(&self) -> Seq<char> {
        self.did@
    }

    closed spec fn spec_pds_url(&self) -> Seq<char> {
        self.pds_url@
    }

    fn did(&self) -> (r: &str) {
        self.did.as_str()
    }

    fn pds_url(&self) -> (r: &str) {
        self.pds_url.as_str()
    }

    /// On success, exactly two headers: `Authorization: DPoP <token>` and a
    /// `DPoP` header carrying a proof freshly bound to this method, URL,
    /// nonce and token. A signing failure surfaces as `Session`.
    fn get_auth_headers(&self, method: &str, url: &str, nonce: Option<&str>) -> (r: Result<
        Vec<(String, String)>,
        Error,
    >)
        ensures
            r is Ok ==> {
                &&& r->Ok_0@.len() == 2
                &&& r->Ok_0@[0].0@ == "Authorization"@
                &&& r->Ok_0@[0].1@ == "DPoP "@ + self.spec_token()
                &&& r->Ok_0@[1].0@ == "DPoP"@
            },
            r is Err ==> r->Err_0 is Session,
    {
        let now = now_seconds();
        let iat: u64 = if now >= 0 {
            now as u64
        } else {
            0
        };
        let proof_token = match create_proof(
            self.dpop_private_key_pem.as_str(),
            &self.dpop_public_jwk,
            method,
            url,
            iat,
            nonce,
            Some(self.access_token.as_str()),
        ) {
            Ok(p) => p,
            Err(_) => {
                return Err(Error::Session(String::from_str("could not sign the request proof")));
            },
        };
        let mut value = String::from_str("DPoP ");
        value.append(self.access_token.as_str());
        let mut headers: Vec<(String, String)> = Vec::new();
        headers.push((String::from_str("Authorization"), value));
        headers.push((String::from_str("DPoP"), proof_token));
        Ok(headers)
    }
}

} // verus!
