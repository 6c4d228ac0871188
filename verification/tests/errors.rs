use atproto_client::crypto::uuid_string;
use atproto_client::repo::decode_get_record;
use atproto_client::Error;

#[test]
fn test_error_kinds() {
    assert_eq!(Error::StateMismatch.kind(), "state mismatch");
    assert_eq!(Error::NoPendingAuth.kind(), "no pending auth");
    assert_eq!(
        Error::Xrpc { status: 400, error: "E".to_string(), message: None }.kind(),
        "xrpc"
    );
    assert_eq!(Error::Signing("k".to_string()).kind(), "signing");
    assert_eq!(
        Error::RefreshFailed { status: 401, body: String::new() }.kind(),
        "refresh failed"
    );
}

#[test]
fn test_unparsable_success_body_is_a_json_error() {
    let out = decode_get_record(200, "<html>".to_string());
    assert!(matches!(out, Err(Error::Json(_))));
}

#[test]
fn test_uuid_text_is_hyphenated_form() {
    let a = uuid_string();
    let b = uuid_string();
    assert_eq!(a.len(), 36);
    assert_ne!(a, b);
}
