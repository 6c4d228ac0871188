use atproto_client::dpop::{build_claims, claims_to_json, create_proof, generate_keypair};
use atproto_client::pkce;
use atproto_client::session::{BearerSession, DpopSession, Session};
use atproto_client::Error;

#[test]
fn test_claims_always_carry_fixed_fields() {
    let claims = build_claims(
        "post",
        "https://pds.example/xrpc/com.atproto.repo.createRecord",
        1700000000,
        "proof-id".to_string(),
        None,
        None,
    );
    assert_eq!(claims.jti, "proof-id");
    assert_eq!(claims.htm, "POST");
    assert_eq!(claims.htu, "https://pds.example/xrpc/com.atproto.repo.createRecord");
    assert_eq!(claims.iat, 1700000000);
    assert!(claims.nonce.is_none());
    assert!(claims.ath.is_none());
    let json = claims_to_json(&claims);
    assert!(json.contains("\"jti\":\"proof-id\""));
    assert!(json.contains("\"htm\":\"POST\""));
    assert!(json.contains("\"htu\":"));
    assert!(json.contains("\"iat\":1700000000"));
    assert!(!json.contains("\"nonce\""));
    assert!(!json.contains("\"ath\""));
}

#[test]
fn test_claims_carry_nonce_exactly_when_supplied() {
    let with = build_claims("GET", "https://x", 1, "j".to_string(), Some("srv-nonce"), None);
    assert_eq!(with.nonce.as_deref(), Some("srv-nonce"));
    assert!(claims_to_json(&with).contains("\"nonce\":\"srv-nonce\""));
    let without = build_claims("GET", "https://x", 1, "j".to_string(), None, None);
    assert!(without.nonce.is_none());
}

#[test]
fn test_claims_carry_token_digest_exactly_when_supplied() {
    let with = build_claims("GET", "https://x", 1, "j".to_string(), None, Some("token-a"));
    let ath = with.ath.clone().expect("a supplied token must be bound");
    // The digest is unpadded base64url of 32 bytes: always 43 characters,
    // and never the token itself.
    assert_eq!(ath.len(), 43);
    assert_ne!(ath, "token-a");
    assert!(claims_to_json(&with).contains("\"ath\":\""));
    // Different tokens give different digests.
    let other = build_claims("GET", "https://x", 1, "j".to_string(), None, Some("token-b"));
    assert_ne!(other.ath, with.ath);
}

#[test]
fn test_pkce_pair_shape() {
    let pair = pkce::generate();
    assert_eq!(pair.verifier.len(), 43);
    assert_eq!(pair.challenge.len(), 43);
    assert_ne!(pair.verifier, pair.challenge);
    // A second pair draws fresh randomness.
    let pair2 = pkce::generate();
    assert_ne!(pair.verifier, pair2.verifier);
}

#[test]
fn test_generate_keypair_and_sign() {
    let keypair = generate_keypair().unwrap();
    assert_eq!(keypair.public_jwk.x.len(), 43);
    assert_eq!(keypair.public_jwk.y.len(), 43);
    let proof = create_proof(
        &keypair.private_key_pem,
        &keypair.public_jwk,
        "POST",
        "https://pds.example/xrpc/com.atproto.repo.createRecord",
        1700000000,
        Some("nonce-1"),
        Some("token-1"),
    )
    .unwrap();
    // A compact signed token has exactly three dot-separated segments.
    assert_eq!(proof.split('.').count(), 3);
}

#[test]
fn test_create_proof_rejects_bad_key() {
    let keypair = generate_keypair().unwrap();
    let out = create_proof(
        "not a pem key",
        &keypair.public_jwk,
        "POST",
        "https://x",
        1,
        None,
        None,
    );
    assert!(matches!(out, Err(Error::Signing(_))));
}

#[test]
fn test_bearer_session_headers() {
    let session = BearerSession::new("did:plc:abc123", "https://bsky.social", "tok");
    let headers = session
        .get_auth_headers("GET", "https://bsky.social/xrpc/x", None)
        .unwrap();
    assert_eq!(headers.len(), 1);
    assert_eq!(headers[0].0, "Authorization");
    assert_eq!(headers[0].1, "Bearer tok");
    assert_eq!(session.did(), "did:plc:abc123");
    assert_eq!(session.pds_url(), "https://bsky.social");
}

#[test]
fn test_dpop_session_headers() {
    let keypair = generate_keypair().unwrap();
    let session = DpopSession::new(
        "did:plc:abc123",
        "https://pds.example",
        "access-tok",
        &keypair.private_key_pem,
        keypair.public_jwk,
    );
    let headers = session
        .get_auth_headers("POST", "https://pds.example/xrpc/x", Some("n1"))
        .unwrap();
    assert_eq!(headers.len(), 2);
    assert_eq!(headers[0].0, "Authorization");
    assert_eq!(headers[0].1, "DPoP access-tok");
    assert_eq!(headers[1].0, "DPoP");
    assert_eq!(headers[1].1.split('.').count(), 3);
}
