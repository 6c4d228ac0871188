use atproto_client::xrpc::{
    build_xrpc_url, decode_no_response, decode_post_terminal, decode_response, FlowDecision,
    HttpResponse, NonceRetryFlow,
};
use atproto_client::Error;

fn resp(status: u16, nonce: Option<&str>, body: &str) -> HttpResponse {
    HttpResponse {
        status,
        dpop_nonce: nonce.map(|n| n.to_string()),
        body: body.to_string(),
    }
}

#[test]
fn test_challenge_retries_exactly_once() {
    // A 401 carrying a nonce: one resend with that nonce, then the retry's
    // response is terminal no matter what it holds.
    let mut flow = NonceRetryFlow::for_resource();
    let first = flow.on_response(&resp(401, Some("server-nonce"), ""));
    match first {
        FlowDecision::Resend { nonce } => assert_eq!(nonce, "server-nonce"),
        FlowDecision::Conclude => panic!("a nonce challenge must be retried"),
    }
    // Even another 401 with a nonce concludes now: no second retry.
    let second = flow.on_response(&resp(401, Some("another-nonce"), ""));
    assert!(matches!(second, FlowDecision::Conclude));
}

#[test]
fn test_unauthorized_without_nonce_is_terminal() {
    // A 401 without a nonce header: zero retries, immediate error.
    let mut flow = NonceRetryFlow::for_resource();
    let first = flow.on_response(&resp(401, None, "denied"));
    assert!(matches!(first, FlowDecision::Conclude));
    let out = decode_post_terminal(true, resp(401, None, "denied"));
    match out {
        Err(Error::Xrpc { status, error, message }) => {
            assert_eq!(status, 401);
            assert_eq!(error, "Unauthorized");
            assert_eq!(message.as_deref(), Some("denied"));
        }
        _ => panic!("a nonce-less 401 must surface as an error"),
    }
}

#[test]
fn test_success_does_not_retry() {
    let mut flow = NonceRetryFlow::for_resource();
    let first = flow.on_response(&resp(200, Some("ignored"), "{}"));
    assert!(matches!(first, FlowDecision::Conclude));
}

#[test]
fn test_token_flow_triggers_on_400() {
    let mut flow = NonceRetryFlow::for_token_endpoint();
    let first = flow.on_response(&resp(400, Some("n1"), ""));
    assert!(matches!(first, FlowDecision::Resend { .. }));
    let mut flow2 = NonceRetryFlow::for_token_endpoint();
    // A 401 is not the token endpoint's challenge status.
    let other = flow2.on_response(&resp(401, Some("n1"), ""));
    assert!(matches!(other, FlowDecision::Conclude));
}

#[test]
fn test_decode_response_success_hands_body_back() {
    let out = decode_response(resp(200, None, "{\"uri\":\"u\"}"));
    assert_eq!(out.unwrap(), "{\"uri\":\"u\"}");
}

#[test]
fn test_decode_response_reads_declared_error() {
    let out = decode_response(resp(400, None, "{\"error\":\"ExpiredToken\",\"message\":\"x\"}"));
    match out {
        Err(Error::Xrpc { status, error, message }) => {
            assert_eq!(status, 400);
            assert_eq!(error, "ExpiredToken");
            assert_eq!(message.as_deref(), Some("x"));
        }
        _ => panic!("a failure status must decode as an error"),
    }
}

#[test]
fn test_decode_response_falls_back_on_unparsable_body() {
    let out = decode_response(resp(500, None, "oops"));
    match out {
        Err(Error::Xrpc { status, error, message }) => {
            assert_eq!(status, 500);
            assert_eq!(error, "Unknown");
            assert_eq!(message.as_deref(), Some("oops"));
        }
        _ => panic!("a failure status must decode as an error"),
    }
}

#[test]
fn test_decode_no_response_ignores_body() {
    assert!(decode_no_response(resp(204, None, "")).is_ok());
    assert!(decode_no_response(resp(404, None, "{\"error\":\"NotFound\"}")).is_err());
}

#[test]
fn test_build_url_trims_and_encodes() {
    let params = vec![
        ("repo".to_string(), "did:plc:abc".to_string()),
        ("q".to_string(), "a b".to_string()),
    ];
    let url = build_xrpc_url("https://pds.example/", "com.atproto.repo.getRecord", &params);
    assert_eq!(
        url,
        "https://pds.example/xrpc/com.atproto.repo.getRecord?repo=did%3Aplc%3Aabc&q=a%20b"
    );
}

#[test]
fn test_build_url_without_params() {
    let url = build_xrpc_url("https://pds.example", "com.atproto.repo.createRecord", &vec![]);
    assert_eq!(url, "https://pds.example/xrpc/com.atproto.repo.createRecord");
}
