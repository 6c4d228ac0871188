use atproto_client::discovery::{
    accept_well_known_body, auth_server_metadata_url, decode_auth_server_metadata,
    decode_authorization_server, decode_pds_url, decode_resolve_handle, did_document_url,
    protected_resource_url, resolve_handle_api_url, well_known_did_url,
};
use atproto_client::identity::{Did, Handle};
use atproto_client::repo::{decode_get_record, get_record_params};
use atproto_client::xrpc::build_xrpc_url;
use atproto_client::Error;

#[test]
fn test_well_known_urls() {
    assert_eq!(
        well_known_did_url("alice.example.com"),
        "https://alice.example.com/.well-known/atproto-did"
    );
    assert_eq!(
        resolve_handle_api_url("alice.example.com"),
        "https://public.api.bsky.app/xrpc/com.atproto.identity.resolveHandle?handle=alice.example.com"
    );
    assert_eq!(
        protected_resource_url("https://pds.example/"),
        "https://pds.example/.well-known/oauth-protected-resource"
    );
    assert_eq!(
        auth_server_metadata_url("https://as.example"),
        "https://as.example/.well-known/oauth-authorization-server"
    );
}

#[test]
fn test_did_document_url_per_method() {
    assert_eq!(
        did_document_url("did:plc:abc123").unwrap(),
        "https://plc.directory/did:plc:abc123"
    );
    assert_eq!(
        did_document_url("did:web:example.com").unwrap(),
        "https://example.com/.well-known/did.json"
    );
    assert!(matches!(did_document_url("did:key:z6Mk"), Err(Error::Resolution(_))));
}

#[test]
fn test_well_known_acceptance() {
    assert_eq!(
        accept_well_known_body(200, "did:plc:abc123\n").as_deref(),
        Some("did:plc:abc123")
    );
    assert!(accept_well_known_body(404, "did:plc:abc123").is_none());
    assert!(accept_well_known_body(200, "not a did").is_none());
}

#[test]
fn test_resolve_handle_fallback_decoding() {
    assert_eq!(
        decode_resolve_handle(200, "{\"did\":\"did:plc:abc123\"}").unwrap(),
        "did:plc:abc123"
    );
    assert!(decode_resolve_handle(500, "{\"did\":\"did:plc:abc123\"}").is_err());
    assert!(decode_resolve_handle(200, "{}").is_err());
}

#[test]
fn test_pds_lookup_from_document() {
    let doc = "{\"id\":\"did:plc:abc123\",\"service\":[\
        {\"id\":\"#other\",\"type\":\"SomethingElse\",\"serviceEndpoint\":\"https://other.example\"},\
        {\"id\":\"#pds\",\"type\":\"AtprotoPersonalDataServer\",\"serviceEndpoint\":\"https://pds.example\"}]}";
    assert_eq!(decode_pds_url(200, doc).unwrap(), "https://pds.example");
    let no_pds = "{\"id\":\"did:plc:abc123\",\"service\":[\
        {\"id\":\"#o\",\"type\":\"SomethingElse\",\"serviceEndpoint\":\"https://o.example\"}]}";
    assert!(decode_pds_url(200, no_pds).is_err());
    let no_services = "{\"id\":\"did:plc:abc123\"}";
    assert!(decode_pds_url(200, no_services).is_err());
    assert!(decode_pds_url(500, doc).is_err());
}

#[test]
fn test_auth_server_discovery() {
    let pr = "{\"authorization_servers\":[\"https://as.example\",\"https://as2.example\"]}";
    assert_eq!(decode_authorization_server(200, pr).unwrap(), "https://as.example");
    assert!(decode_authorization_server(200, "{\"authorization_servers\":[]}").is_err());
    assert!(decode_authorization_server(404, pr).is_err());
    let meta = "{\"issuer\":\"https://as.example\",\
        \"authorization_endpoint\":\"https://as.example/authorize\",\
        \"token_endpoint\":\"https://as.example/token\"}";
    let m = decode_auth_server_metadata(200, meta).unwrap();
    assert_eq!(m.issuer, "https://as.example");
    assert_eq!(m.authorization_endpoint, "https://as.example/authorize");
    assert_eq!(m.token_endpoint, "https://as.example/token");
    assert!(m.pushed_authorization_request_endpoint.is_none());
}

#[test]
fn test_end_to_end_record_fetch_scenario() {
    // The handle resolves via the domain well-known path.
    let url = well_known_did_url("alice.example.com");
    assert_eq!(url, "https://alice.example.com/.well-known/atproto-did");
    let did = accept_well_known_body(200, "did:plc:abc123").unwrap();
    assert_eq!(did, "did:plc:abc123");

    // Its document declares the personal data server.
    let doc = "{\"id\":\"did:plc:abc123\",\"service\":[\
        {\"id\":\"#pds\",\"type\":\"AtprotoPersonalDataServer\",\"serviceEndpoint\":\"https://pds.example\"}]}";
    let pds = decode_pds_url(200, doc).unwrap();
    assert_eq!(pds, "https://pds.example");

    // A record fetch against that endpoint.
    let params = get_record_params(&did, "app.example.post", "3k2f5v");
    let target = build_xrpc_url(&pds, "com.atproto.repo.getRecord", &params);
    assert_eq!(
        target,
        "https://pds.example/xrpc/com.atproto.repo.getRecord?repo=did%3Aplc%3Aabc123&collection=app.example.post&rkey=3k2f5v"
    );

    // The response decodes into uri, optional cid, and the value.
    let body = "{\"uri\":\"at://did:plc:abc123/app.example.post/3k2f5v\",\
        \"cid\":\"bafy1\",\"value\":{\"name\":\"x\"}}";
    let out = decode_get_record(200, body.to_string()).unwrap();
    assert_eq!(out.uri, "at://did:plc:abc123/app.example.post/3k2f5v");
    assert_eq!(out.cid.as_deref(), Some("bafy1"));
    assert_eq!(out.value, "{\"name\":\"x\"}");
}

#[test]
fn test_hop_failures_name_the_status() {
    match decode_pds_url(404, "{}") {
        Err(Error::Resolution(m)) => assert_eq!(m, "DID document fetch failed: 404"),
        _ => panic!("a failed fetch must be a resolution error"),
    }
    match decode_authorization_server(503, "{}") {
        Err(Error::Resolution(m)) => {
            assert_eq!(m, "protected resource metadata fetch failed: 503")
        }
        _ => panic!("a failed fetch must be a resolution error"),
    }
    match decode_auth_server_metadata(500, "{}") {
        Err(Error::Resolution(m)) => assert_eq!(m, "AS metadata fetch failed: 500"),
        _ => panic!("a failed fetch must be a resolution error"),
    }
    match decode_resolve_handle(502, "{}") {
        Err(Error::Resolution(m)) => assert_eq!(m, "handle resolution failed: 502"),
        _ => panic!("a failed fetch must be a resolution error"),
    }
}

#[test]
fn test_pds_decoder_accepts_a_declared_service() {
    // The success direction: a parsed document with a tagged service must
    // come back Ok.
    let doc = "{\"id\":\"did:plc:abc123\",\"service\":[\
        {\"id\":\"#pds\",\"type\":\"AtprotoPersonalDataServer\",\"serviceEndpoint\":\"https://pds.example\"}]}";
    assert!(decode_pds_url(200, doc).is_ok());
    let pr = "{\"authorization_servers\":[\"https://as.example\"]}";
    assert!(decode_authorization_server(200, pr).is_ok());
}

#[test]
fn test_validation_errors_carry_the_input() {
    match Did::new("notadid") {
        Err(Error::InvalidDid(t)) => assert_eq!(t, "notadid"),
        _ => panic!("a malformed DID must be rejected with its text"),
    }
    match Handle::new(".invalid") {
        Err(Error::InvalidHandle(t)) => assert_eq!(t, ".invalid"),
        _ => panic!("a malformed handle must be rejected with its text"),
    }
}
