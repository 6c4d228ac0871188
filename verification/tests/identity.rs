use atproto_client::identity::{Did, Handle};

#[test]
fn test_valid_did() {
    assert!(Did::new("did:plc:abc123").is_ok());
    assert!(Did::new("did:web:example.com").is_ok());
}

#[test]
fn test_invalid_did() {
    assert!(Did::new("notadid").is_err());
    assert!(Did::new("did:").is_err());
    assert!(Did::new("did:plc:").is_err());
}

#[test]
fn test_valid_handle() {
    assert!(Handle::new("alice.bsky.social").is_ok());
    assert!(Handle::new("test.example.com").is_ok());
}

#[test]
fn test_invalid_handle() {
    assert!(Handle::new("nodomainpart").is_err());
    assert!(Handle::new(".invalid").is_err());
    assert!(Handle::new("invalid.").is_err());
}

#[test]
fn test_did_keeps_text() {
    let did = Did::new("did:plc:abc123").unwrap();
    assert_eq!(did.as_str(), "did:plc:abc123");
}

#[test]
fn test_handle_keeps_text() {
    let handle = Handle::new("alice.example.com").unwrap();
    assert_eq!(handle.as_str(), "alice.example.com");
}

#[test]
fn test_handle_rejects_inner_empty_label() {
    assert!(Handle::new("a..b").is_err());
    assert!(Handle::new("a.b c.d").is_err());
}
