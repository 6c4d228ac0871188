use atproto_client::dpop::JwkPublicKey;
use atproto_client::oauth::{
    apply_refresh, auth_code_grant_form, build_authorization_url, build_client_id,
    client_metadata, finish_token_exchange, needs_refresh, redirect_uri, refresh_decision,
    refresh_grant_form, validate_callback, AuthenticatedUser, CallbackParams, GrantKind,
    PendingAuth, RefreshPlan, TokenResponse,
};
use atproto_client::Error;

fn pending(state: &str) -> PendingAuth {
    PendingAuth {
        state: state.to_string(),
        code_verifier: "verifier".to_string(),
        dpop_private_key_pem: "pem".to_string(),
        dpop_public_jwk: JwkPublicKey { x: "x".to_string(), y: "y".to_string() },
        authorization_server: "https://as.example".to_string(),
        token_endpoint: "https://as.example/token".to_string(),
        pds_url: "https://pds.example".to_string(),
        handle: "alice.example.com".to_string(),
        created_at: 1700000000,
    }
}

fn params(code: Option<&str>, state: Option<&str>, error: Option<&str>) -> CallbackParams {
    CallbackParams {
        code: code.map(|s| s.to_string()),
        state: state.map(|s| s.to_string()),
        error: error.map(|s| s.to_string()),
        error_description: None,
    }
}

fn user(expires_at: i64, refresh: Option<&str>) -> AuthenticatedUser {
    AuthenticatedUser {
        did: "did:plc:abc123".to_string(),
        handle: "alice.example.com".to_string(),
        access_token: "old-access".to_string(),
        refresh_token: refresh.map(|s| s.to_string()),
        expires_at,
        dpop_private_key_pem: "pem".to_string(),
        dpop_public_jwk: JwkPublicKey { x: "x".to_string(), y: "y".to_string() },
        pds_url: "https://pds.example".to_string(),
        profile: None,
    }
}

#[test]
fn test_callback_accepts_matching_state() {
    let out = validate_callback(Some(pending("st-1")), &params(Some("code-1"), Some("st-1"), None));
    let (p, code) = out.unwrap();
    assert_eq!(p.handle, "alice.example.com");
    assert_eq!(code, "code-1");
}

#[test]
fn test_callback_fails_closed_on_state_mismatch() {
    let out = validate_callback(Some(pending("st-1")), &params(Some("code-1"), Some("st-2"), None));
    assert!(matches!(out, Err(Error::StateMismatch)));
    let out2 = validate_callback(Some(pending("st-1")), &params(Some("code-1"), None, None));
    assert!(matches!(out2, Err(Error::StateMismatch)));
}

#[test]
fn test_callback_requires_pending_auth() {
    let out = validate_callback(None, &params(Some("code-1"), Some("st-1"), None));
    assert!(matches!(out, Err(Error::NoPendingAuth)));
}

#[test]
fn test_callback_requires_code() {
    let out = validate_callback(Some(pending("st-1")), &params(None, Some("st-1"), None));
    assert!(matches!(out, Err(Error::MissingCode(_))));
}

#[test]
fn test_callback_reports_server_error() {
    let out = validate_callback(
        Some(pending("st-1")),
        &params(Some("c"), Some("st-1"), Some("access_denied")),
    );
    assert!(matches!(out, Err(Error::AuthorizationFailed { .. })));
}

#[test]
fn test_refresh_triggers_only_at_expiry() {
    assert!(!needs_refresh(999, 1000));
    assert!(needs_refresh(1000, 1000));
    assert!(needs_refresh(1001, 1000));
    let valid = user(1000, Some("r")); // expiry in the future of now=999
    assert!(matches!(refresh_decision(&valid, 999), RefreshPlan::NotNeeded));
    let due = user(1000, Some("r"));
    assert!(matches!(
        refresh_decision(&due, 1000),
        RefreshPlan::UseRefreshToken { .. }
    ));
    let stranded = user(1000, None);
    assert!(matches!(refresh_decision(&stranded, 1000), RefreshPlan::ReLogin));
}

#[test]
fn test_refresh_replaces_tokens_and_keeps_identity() {
    let mut u = user(1000, Some("old-refresh"));
    let tokens = TokenResponse {
        access_token: "new-access".to_string(),
        refresh_token: Some("new-refresh".to_string()),
        expires_in: 3600,
        sub: "did:plc:abc123".to_string(),
    };
    apply_refresh(&mut u, tokens, 2000);
    assert_eq!(u.access_token, "new-access");
    assert_eq!(u.refresh_token.as_deref(), Some("new-refresh"));
    assert_eq!(u.expires_at, 2000 + 3600);
    assert_eq!(u.did, "did:plc:abc123");
    assert_eq!(u.handle, "alice.example.com");
    assert_eq!(u.pds_url, "https://pds.example");
    assert_eq!(u.dpop_private_key_pem, "pem");
    assert_eq!(u.dpop_public_jwk.x, "x");
    assert_eq!(u.dpop_public_jwk.y, "y");
}

#[test]
fn test_refresh_keeps_old_refresh_token_when_none_issued() {
    let mut u = user(1000, Some("old-refresh"));
    let tokens = TokenResponse {
        access_token: "new-access".to_string(),
        refresh_token: None,
        expires_in: 60,
        sub: "did:plc:abc123".to_string(),
    };
    apply_refresh(&mut u, tokens, 5000);
    assert_eq!(u.refresh_token.as_deref(), Some("old-refresh"));
}

#[test]
fn test_token_exchange_success_parses_tokens() {
    let body = "{\"access_token\":\"at\",\"refresh_token\":\"rt\",\"expires_in\":7200,\"sub\":\"did:plc:abc123\"}";
    let t = finish_token_exchange(GrantKind::AuthorizationCode, 200, body.to_string()).unwrap();
    assert_eq!(t.access_token, "at");
    assert_eq!(t.refresh_token.as_deref(), Some("rt"));
    assert_eq!(t.expires_in, 7200);
    assert_eq!(t.sub, "did:plc:abc123");
}

#[test]
fn test_token_exchange_failure_carries_status_and_body() {
    let out = finish_token_exchange(GrantKind::AuthorizationCode, 400, "bad grant".to_string());
    match out {
        Err(Error::TokenExchange { status, body }) => {
            assert_eq!(status, 400);
            assert_eq!(body, "bad grant");
        }
        _ => panic!("a terminal failure must carry status and body"),
    }
    let out2 = finish_token_exchange(GrantKind::Refresh, 401, "nope".to_string());
    assert!(matches!(out2, Err(Error::RefreshFailed { status: 401, .. })));
}

#[test]
fn test_grant_forms() {
    let form = auth_code_grant_form("c0de", "https://app/oauth/callback", "client-1", "ver1");
    assert_eq!(
        form,
        vec![
            ("grant_type".to_string(), "authorization_code".to_string()),
            ("code".to_string(), "c0de".to_string()),
            ("redirect_uri".to_string(), "https://app/oauth/callback".to_string()),
            ("client_id".to_string(), "client-1".to_string()),
            ("code_verifier".to_string(), "ver1".to_string()),
        ]
    );
    let rform = refresh_grant_form("rt-1", "client-1");
    assert_eq!(
        rform,
        vec![
            ("grant_type".to_string(), "refresh_token".to_string()),
            ("refresh_token".to_string(), "rt-1".to_string()),
            ("client_id".to_string(), "client-1".to_string()),
        ]
    );
}

#[test]
fn test_authorization_url_shape() {
    let redirect = redirect_uri("http://127.0.0.1:3000");
    assert_eq!(redirect, "http://127.0.0.1:3000/oauth/callback");
    let client_id = build_client_id(&redirect);
    assert_eq!(
        client_id,
        "http://localhost?scope=atproto%20transition%3Ageneric&redirect_uri=http%3A%2F%2F127.0.0.1%3A3000%2Foauth%2Fcallback"
    );
    let url = build_authorization_url(
        "https://as.example/authorize",
        "client-1",
        &redirect,
        "st-1",
        "chal",
    );
    assert_eq!(
        url,
        "https://as.example/authorize?response_type=code&client_id=client-1&redirect_uri=http%3A%2F%2F127.0.0.1%3A3000%2Foauth%2Fcallback&state=st-1&code_challenge=chal&code_challenge_method=S256&scope=atproto%20transition:generic"
    );
}

#[test]
fn test_client_metadata_shape() {
    let m = client_metadata("https://app.example");
    assert_eq!(m.client_id, "https://app.example");
    assert_eq!(m.redirect_uris, vec!["https://app.example/oauth/callback".to_string()]);
    assert_eq!(
        m.grant_types,
        vec!["authorization_code".to_string(), "refresh_token".to_string()]
    );
    assert_eq!(m.response_types, vec!["code".to_string()]);
    assert_eq!(m.scope, "atproto transition:generic");
    assert_eq!(m.token_endpoint_auth_method, "none");
    assert_eq!(m.application_type, "web");
    assert!(m.dpop_bound_access_tokens);
}
