use atproto_client::at_uri::AtUri;

#[test]
fn test_parse_full_uri() {
    let uri = AtUri::parse("at://did:plc:abc123/app.bsky.feed.post/3k2f5v").unwrap();
    assert_eq!(uri.authority(), "did:plc:abc123");
    assert_eq!(uri.collection(), Some("app.bsky.feed.post"));
    assert_eq!(uri.rkey(), Some("3k2f5v"));
}

#[test]
fn test_parse_collection_uri() {
    let uri = AtUri::parse("at://alice.bsky.social/app.bsky.feed.post").unwrap();
    assert_eq!(uri.authority(), "alice.bsky.social");
    assert_eq!(uri.collection(), Some("app.bsky.feed.post"));
    assert_eq!(uri.rkey(), None);
}

#[test]
fn test_parse_repo_uri() {
    let uri = AtUri::parse("at://did:plc:abc123").unwrap();
    assert_eq!(uri.authority(), "did:plc:abc123");
    assert_eq!(uri.collection(), None);
    assert_eq!(uri.rkey(), None);
}

#[test]
fn test_roundtrip() {
    let original = "at://did:plc:abc123/app.bsky.feed.post/3k2f5v";
    let uri = AtUri::parse(original).unwrap();
    assert_eq!(uri.to_text(), original);
}

#[test]
fn test_invalid_uri() {
    assert!(AtUri::parse("https://example.com").is_err());
    assert!(AtUri::parse("at://").is_err());
}

#[test]
fn test_rkey_without_collection_fails() {
    assert!(AtUri::parse("at://did:plc:abc123//3k2f5v").is_err());
}

#[test]
fn test_constructor_roundtrip() {
    let uri = AtUri::record("did:plc:abc123", "coll.name", "3k2f5v");
    let text = uri.to_text();
    assert_eq!(text, "at://did:plc:abc123/coll.name/3k2f5v");
    let back = AtUri::parse(&text).unwrap();
    assert_eq!(back.authority(), "did:plc:abc123");
    assert_eq!(back.collection(), Some("coll.name"));
    assert_eq!(back.rkey(), Some("3k2f5v"));
}

#[test]
fn test_collection_only_roundtrip() {
    let uri = AtUri::for_collection("alice.example.com", "coll.name");
    let text = uri.to_text();
    assert_eq!(text, "at://alice.example.com/coll.name");
    let back = AtUri::parse(&text).unwrap();
    assert_eq!(back.authority(), "alice.example.com");
    assert_eq!(back.collection(), Some("coll.name"));
    assert_eq!(back.rkey(), None);
}

#[test]
fn test_repo_only_roundtrip() {
    let uri = AtUri::repo("did:plc:abc123");
    let text = uri.to_text();
    assert_eq!(text, "at://did:plc:abc123");
    let back = AtUri::parse(&text).unwrap();
    assert_eq!(back.authority(), "did:plc:abc123");
    assert_eq!(back.collection(), None);
    assert_eq!(back.rkey(), None);
}
