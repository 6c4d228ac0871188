//! The OAuth authorization-code flow bound to proof-of-possession keys:
//! the pending state stored between redirect and callback, the
//! authorization URL, the anti-forgery check at the callback, the token
//! exchange forms, and credential refresh.
//!
//! Refresh is not serialized here: the refresh decision and the
//! installation of new tokens are pure functions of one credential, and
//! two concurrent callers that both see an expired credential may both
//! exchange the refresh token. A caller that wants single-flight refresh
//! wraps `refresh_decision` and `apply_refresh` in its own per-credential
//! lock.
use vstd::prelude::*;

use crate::discovery::AuthServerMetadata;
use crate::dpop::{DpopKeyPair, JwkPublicKey};
use crate::encoding::{query_encode, query_encoded_of};
use crate::error::Error;
use crate::models::ProfileRecord;
use crate::pkce::PkceChallenge;
use crate::strutil::str_eq;

verus! {

/// The transient state persisted between the authorization redirect and
/// the callback; consumed exactly once by a successful callback.
pub struct PendingAuth {
    /// The random anti-forgery state value.
    pub state: String,
    /// The PKCE verifier matching the challenge sent along.
    pub code_verifier: String,
    pub dpop_private_key_pem: String,
    pub dpop_public_jwk: JwkPublicKey,
    pub authorization_server: String,
    pub token_endpoint: String,
    pub pds_url: String,
    pub handle: String,
    /// Seconds since the Unix epoch at creation.
    pub created_at: i64,
}

/// What a token endpoint returns on success.
pub struct TokenResponse {
    pub access_token: String,
    pub refresh_token: Option<String>,
    pub expires_in: u64,
    pub sub: String,
}

/// The durable credential of a signed-in account.
pub struct AuthenticatedUser {
    pub did: String,
    pub handle: String,
    pub access_token: String,
    pub refresh_token: Option<String>,
    /// Seconds since the Unix epoch at which the access token expires.
    pub expires_at: i64,
    pub dpop_private_key_pem: String,
    pub dpop_public_jwk: JwkPublicKey,
    pub pds_url: String,
    pub profile: Option<ProfileRecord>,
}

/// The sign-in form: the handle the user typed.
pub struct LoginForm {
    pub handle: String,
}

/// What the authorization server hands back at the callback.
pub struct CallbackParams {
    pub code: Option<String>,
    pub state: Option<String>,
    pub error: Option<String>,
    pub error_description: Option<String>,
}

/// The static descriptor this client publishes about itself.
pub struct ClientMetadata {
    pub client_id: String,
    pub client_name: String,
    pub client_uri: String,
    pub redirect_uris: Vec<String>,
    pub grant_types: Vec<String>,
    pub response_types: Vec<String>,
    pub scope: String,
    pub token_endpoint_auth_method: String,
    pub application_type: String,
    pub dpop_bound_access_tokens: bool,
}

/// The callback path under the site's base URL.
pub fn redirect_uri(base_url: &str) -> (r: String)
    ensures
        r@ == base_url@ + "/oauth/callback"@,
{
    let mut out = base_url.to_owned();
    out.append("/oauth/callback");
    out
}

/// The scope this client asks for.
pub open spec fn spec_scope() -> Seq<char> {
    "atproto transition:generic"@
}

/// The loopback-development client id: a localhost URL that embeds the
/// scope and the redirect URI as encoded query parameters.
pub fn build_client_id(redirect: &str) -> (r: String)
    ensures
        r@ == "http://localhost?scope="@ + query_encoded_of(spec_scope()) + "&redirect_uri="@
            + query_encoded_of(redirect@),
{
    let mut out = String::from_str("http://localhost?scope=");
    out.append(query_encode("atproto transition:generic").as_str());
    out.append("&redirect_uri=");
    out.append(query_encode(redirect).as_str());
    out
}

/// The external authorization URL: response type, client id, redirect URI,
/// state, PKCE challenge and method, and scope, all as query parameters on
/// the discovered authorization endpoint.
pub fn build_authorization_url(
    authorization_endpoint: &str,
    client_id: &str,
    redirect: &str,
    state: &str,
    code_challenge: &str,
) -> (r: String)
    ensures
        r@ == authorization_endpoint@ + "?response_type=code&client_id="@ + query_encoded_of(
            client_id@,
        ) + "&redirect_uri="@ + query_encoded_of(redirect@) + "&state="@ + query_encoded_of(state@)
            + "&code_challenge="@ + query_encoded_of(code_challenge@)
            + "&code_challenge_method=S256&scope=atproto%20transition:generic"@,
{
    let mut out = authorization_endpoint.to_owned();
    out.append("?response_type=code&client_id=");
    out.append(query_encode(client_id).as_str());
    out.append("&redirect_uri=");
    out.append(query_encode(redirect).as_str());
    out.append("&state=");
    out.append(query_encode(state).as_str());
    out.append("&code_challenge=");
    out.append(query_encode(code_challenge).as_str());
    out.append("&code_challenge_method=S256&scope=atproto%20transition:generic");
    out
}

/// Gathers everything the callback will need into the pending state, each
/// field carried over unchanged.
pub fn build_pending_auth(
    handle: &str,
    pds_url: &str,
    metadata: &AuthServerMetadata,
    pkce: PkceChallenge,
    keypair: DpopKeyPair,
    oauth_state: String,
    created_at: i64,
) -> (r: PendingAuth)
    ensures
        r.state@ == oauth_state@,
        r.code_verifier@ == pkce.verifier@,
        r.dpop_private_key_pem@ == keypair.private_key_pem@,
        r.dpop_public_jwk.x@ == keypair.public_jwk.x@,
        r.dpop_public_jwk.y@ == keypair.public_jwk.y@,
        r.authorization_server@ == metadata.issuer@,
        r.token_endpoint@ == metadata.token_endpoint@,
        r.pds_url@ == pds_url@,
        r.handle@ == handle@,
        r.created_at == created_at,
{
    PendingAuth {
        state: oauth_state,
        code_verifier: pkce.verifier,
        dpop_private_key_pem: keypair.private_key_pem,
        dpop_public_jwk: keypair.public_jwk,
        authorization_server: metadata.issuer.clone(),
        token_endpoint: metadata.token_endpoint.clone(),
        pds_url: pds_url.to_owned(),
        handle: handle.to_owned(),
        created_at,
    }
}

/// Validates the callback against the pending state. Fails closed: an
/// error from the authorization server, a missing code, a missing pending
/// authorization, or a state value that does not match each reject the
/// callback; only a matching state with a code proceeds, yielding the
/// pending state and the code.
pub fn validate_callback(pending: Option<PendingAuth>, params: &CallbackParams) -> (r: Result<
    (PendingAuth, String),
    Error,
>)
    ensures
        r is Ok <==> {
            &&& params.error is None
            &&& params.code is Some
            &&& pending is Some
            &&& params.state matches Option::Some(st) && (pending matches Option::Some(p)
                && st@ == p.state@)
        },
        r matches Result::Ok(ok) ==> (pending matches Option::Some(p) && ok.0 == p
            && (params.code matches Option::Some(c) && ok.1@ == c@)),
        r matches Result::Err(e) ==> match e {
            Error::AuthorizationFailed { .. } => params.error is Some,
            Error::MissingCode(_) => params.error is None && params.code is None,
            Error::NoPendingAuth => params.error is None && params.code is Some
                && pending is None,
            Error::StateMismatch => {
                &&& params.error is None
                &&& params.code is Some
                &&& pending is Some
                &&& !(params.state matches Option::Some(st) && (pending matches Option::Some(p)
                    && st@ == p.state@))
            },
            _ => false,
        },
{
    if let Option::Some(err) = &params.error {
        let desc = match &params.error_description {
            Option::Some(d) => d.clone(),
            Option::None => String::new(),
        };
        return Err(Error::AuthorizationFailed { error: err.clone(), description: desc });
    }
    let code = match &params.code {
        Option::Some(c) => c.clone(),
        Option::None => {
            return Err(Error::MissingCode(String::from_str("missing authorization code")));
        },
    };
    let p = match pending {
        Option::Some(p) => p,
        Option::None => {
            return Err(Error::NoPendingAuth);
        },
    };
    match &params.state {
        Option::Some(st) => {
            if str_eq(st.as_str(), p.state.as_str()) {
                Ok((p, code))
            } else {
                Err(Error::StateMismatch)
            }
        },
        Option::None => Err(Error::StateMismatch),
    }
}

/// The pair view of a form body.
pub open spec fn spec_form_view(params: Seq<(String, String)>) -> Seq<(Seq<char>, Seq<char>)> {
    Seq::new(params.len(), |i: int| (params[i].0@, params[i].1@))
}

/// The form body of the authorization-code exchange.
pub fn auth_code_grant_form(code: &str, redirect: &str, client_id: &str, code_verifier: &str) -> (r:
    Vec<(String, String)>)
    ensures
        spec_form_view(r@) =~= seq![
            ("grant_type"@, "authorization_code"@),
            ("code"@, code@),
            ("redirect_uri"@, redirect@),
            ("client_id"@, client_id@),
            ("code_verifier"@, code_verifier@),
        ],
{
    let mut form: Vec<(String, String)> = Vec::new();
    form.push((String::from_str("grant_type"), String::from_str("authorization_code")));
    form.push((String::from_str("code"), code.to_owned()));
    form.push((String::from_str("redirect_uri"), redirect.to_owned()));
    form.push((String::from_str("client_id"), client_id.to_owned()));
    form.push((String::from_str("code_verifier"), code_verifier.to_owned()));
    form
}

/// The form body of the refresh-token exchange.
pub fn refresh_grant_form(refresh_token: &str, client_id: &str) -> (r: Vec<(String, String)>)
    ensures
        spec_form_view(r@) =~= seq![
            ("grant_type"@, "refresh_token"@),
            ("refresh_token"@, refresh_token@),
            ("client_id"@, client_id@),
        ],
{
    let mut form: Vec<(String, String)> = Vec::new();
    form.push((String::from_str("grant_type"), String::from_str("refresh_token")));
    form.push((String::from_str("refresh_token"), refresh_token.to_owned()));
    form.push((String::from_str("client_id"), client_id.to_owned()));
    form
}

/// The fields a token response denotes, when it parses: access token,
/// optional refresh token, lifetime in seconds, and subject.
pub uninterp spec fn token_fields_of(body: Seq<char>) -> Option<
    (Seq<char>, Option<Seq<char>>, u64, Seq<char>),
>;

/// Relies on serde_json: extracts `access_token`, the optional
/// `refresh_token`, the integral `expires_in` and `sub`; determined by the
/// body alone.
#[verifier::external_body]
pub fn parse_token_body(body: &str) -> (r: Option<TokenResponse>)
    ensures
        r is Some <==> token_fields_of(body@) is Some,
        match r {
            Option::None => true,
            Option::Some(t) => token_fields_of(body@) matches Option::Some(f) && t.access_token@
                == f.0 && (match (t.refresh_token, f.1) {
                (Option::None, Option::None) => true,
                (Option::Some(rt), Option::Some(frt)) => rt@ == frt,
                _ => false,
            }) && t.expires_in == f.2 && t.sub@ == f.3,
        },
{
    let v: serde_json::Value = serde_json::from_str(body).ok()?;
    let access_token = v.get("access_token")?.as_str()?.to_string();
    let refresh_token = match v.get("refresh_token") {
        None | Some(serde_json::Value::Null) => None,
        Some(serde_json::Value::String(s)) => Some(s.clone()),
        Some(_) => return None,
    };
    let expires_in = v.get("expires_in")?.as_u64()?;
    let sub = v.get("sub")?.as_str()?.to_string();
    Some(TokenResponse { access_token, refresh_token, expires_in, sub })
}

/// Which grant an exchange served; a failed refresh is surfaced apart from
/// a failed fresh exchange so the caller knows a re-login is needed.
pub enum GrantKind {
    AuthorizationCode,
    Refresh,
}

/// Interprets the terminal response of a token exchange: a success body
/// must parse as a token response; any other status is an exchange failure
/// carrying the status and raw body, under the variant matching the grant.
pub fn finish_token_exchange(kind: GrantKind, status: u16, body: String) -> (r: Result<
    TokenResponse,
    Error,
>)
    ensures
        r is Ok <==> (200 <= status < 300 && token_fields_of(body@) is Some),
        r matches Result::Ok(t) ==> (token_fields_of(body@) matches Option::Some(f)
            && t.access_token@ == f.0 && t.expires_in == f.2 && t.sub@ == f.3 && (match (
            t.refresh_token,
            f.1,
        ) {
            (Option::None, Option::None) => true,
            (Option::Some(rt), Option::Some(frt)) => rt@ == frt,
            _ => false,
        })),
        (200 <= status < 300 && token_fields_of(body@) is None) ==> (r matches Result::Err(e) && e
            is Json),
        !(200 <= status < 300) ==> (r matches Result::Err(e) && (match kind {
            GrantKind::AuthorizationCode => e matches Error::TokenExchange {
                status: s,
                body: b,
            } && s == status && b@ == body@,
            GrantKind::Refresh => e matches Error::RefreshFailed { status: s, body: b } && s
                == status && b@ == body@,
        })),
{
    if 200 <= status && status < 300 {
        match parse_token_body(body.as_str()) {
            Option::Some(t) => Ok(t),
            Option::None => Err(
                Error::Json(String::from_str("response body is not a token response")),
            ),
        }
    } else {
        match kind {
            GrantKind::AuthorizationCode => Err(Error::TokenExchange { status, body }),
            GrantKind::Refresh => Err(Error::RefreshFailed { status, body }),
        }
    }
}

/// Builds the durable credential after a successful exchange: identity
/// from the token's subject, handle / endpoint / signing key carried over
/// from the pending state, and expiry set `expires_in` seconds from now.
pub fn build_authenticated_user(
    pending: PendingAuth,
    tokens: TokenResponse,
    now: i64,
    profile: Option<ProfileRecord>,
) -> (r: AuthenticatedUser)
    requires
        0 <= now,
        now + tokens.expires_in <= i64::MAX,
    ensures
        r.did@ == tokens.sub@,
        r.handle@ == pending.handle@,
        r.access_token@ == tokens.access_token@,
        r.refresh_token == tokens.refresh_token,
        r.expires_at == now + tokens.expires_in,
        r.dpop_private_key_pem@ == pending.dpop_private_key_pem@,
        r.dpop_public_jwk.x@ == pending.dpop_public_jwk.x@,
        r.dpop_public_jwk.y@ == pending.dpop_public_jwk.y@,
        r.pds_url@ == pending.pds_url@,
        r.profile == profile,
{
    AuthenticatedUser {
        did: tokens.sub,
        handle: pending.handle,
        access_token: tokens.access_token,
        refresh_token: tokens.refresh_token,
        expires_at: now + (tokens.expires_in as i64),
        dpop_private_key_pem: pending.dpop_private_key_pem,
        dpop_public_jwk: pending.dpop_public_jwk,
        pds_url: pending.pds_url,
        profile,
    }
}

/// A credential needs a refresh exactly when "now" is at or past its
/// expiry.
pub fn needs_refresh(now: i64, expires_at: i64) -> (r: bool)
    ensures
        r == (now >= expires_at),
{
    now >= expires_at
}

/// What to do about an expired credential.
pub enum RefreshPlan {
    /// The credential is still valid; no refresh happens.
    NotNeeded,
    /// Expired with a refresh token present: exchange this token.
    UseRefreshToken { refresh_token: String },
    /// Expired with no refresh token: only a fresh login can help.
    ReLogin,
}

/// Decides whether a refresh is due: only at or past expiry, and only with
/// a refresh token at hand; past expiry without one forces a re-login.
pub fn refresh_decision(user: &AuthenticatedUser, now: i64) -> (r: RefreshPlan)
    ensures
        r is NotNeeded <==> now < user.expires_at,
        r is UseRefreshToken <==> (now >= user.expires_at && user.refresh_token is Some),
        r is ReLogin <==> (now >= user.expires_at && user.refresh_token is None),
        r matches RefreshPlan::UseRefreshToken { refresh_token } ==> (user.refresh_token matches
            Option::Some(t) && refresh_token@ == t@),
{
    if now < user.expires_at {
        RefreshPlan::NotNeeded
    } else {
        match &user.refresh_token {
            Option::Some(t) => RefreshPlan::UseRefreshToken { refresh_token: t.clone() },
            Option::None => RefreshPlan::ReLogin,
        }
    }
}

/// Installs refreshed tokens on the credential: the access token and
/// expiry are replaced together; the refresh token is replaced only if the
/// exchange issued a new one; identifier, handle, endpoint, signing key
/// and profile stay untouched.
pub fn apply_refresh(user: &mut AuthenticatedUser, tokens: TokenResponse, now: i64)
    requires
        0 <= now,
        now + tokens.expires_in <= i64::MAX,
    ensures
        final(user).access_token@ == tokens.access_token@,
        final(user).expires_at == now + tokens.expires_in,
        tokens.refresh_token is Some ==> final(user).refresh_token == tokens.refresh_token,
        tokens.refresh_token is None ==> final(user).refresh_token == old(user).refresh_token,
        final(user).did == old(user).did,
        final(user).handle == old(user).handle,
        final(user).pds_url == old(user).pds_url,
        final(user).dpop_private_key_pem == old(user).dpop_private_key_pem,
        final(user).dpop_public_jwk.x == old(user).dpop_public_jwk.x,
        final(user).dpop_public_jwk.y == old(user).dpop_public_jwk.y,
        final(user).profile == old(user).profile,
{
    user.access_token = tokens.access_token;
    match tokens.refresh_token {
        Option::Some(rt) => {
            user.refresh_token = Option::Some(rt);
        },
        Option::None => {},
    }
    user.expires_at = now + (tokens.expires_in as i64);
}

/// The static client descriptor: the site's base URL as client id, the
/// callback as the only redirect URI, both grant types, the code response
/// type, this client's scope, and proof-of-possession-bound tokens.
pub fn client_metadata(base_url: &str) -> (r: ClientMetadata)
    ensures
        r.client_id@ == base_url@,
        r.client_name@ == "AtChef"@,
        r.client_uri@ == base_url@,
        r.redirect_uris@.len() == 1,
        r.redirect_uris@[0]@ == base_url@ + "/oauth/callback"@,
        r.grant_types@.len() == 2,
        r.grant_types@[0]@ == "authorization_code"@,
        r.grant_types@[1]@ == "refresh_token"@,
        r.response_types@.len() == 1,
        r.response_types@[0]@ == "code"@,
        r.scope@ == spec_scope(),
        r.token_endpoint_auth_method@ == "none"@,
        r.application_type@ == "web"@,
        r.dpop_bound_access_tokens,
{
    let mut redirect_uris: Vec<String> = Vec::new();
    redirect_uris.push(redirect_uri(base_url));
    let mut grant_types: Vec<String> = Vec::new();
    grant_types.push(String::from_str("authorization_code"));
    grant_types.push(String::from_str("refresh_token"));
    let mut response_types: Vec<String> = Vec::new();
    response_types.push(String::from_str("code"));
    ClientMetadata {
        client_id: base_url.to_owned(),
        client_name: String::from_str("AtChef"),
        client_uri: base_url.to_owned(),
        redirect_uris,
        grant_types,
        response_types,
        scope: String::from_str("atproto transition:generic"),
        token_endpoint_auth_method: String::from_str("none"),
        application_type: String::from_str("web"),
        dpop_bound_access_tokens: true,
    }
}

} // verus!
