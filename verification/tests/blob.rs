use atproto_client::blob::BlobRef;

#[test]
fn test_blob_ref_serialization() {
    let blob = BlobRef::new(
        "bafkreihdwdcefgh4dqkjv67uzcmw7ojee6xedzdetojuzjevtenxquvyku",
        "image/jpeg",
        12345,
    );

    let json = blob.to_json();
    assert!(json.contains("\"$type\":\"blob\""));
    assert!(json.contains("\"$link\""));
    assert!(json.contains("\"mimeType\":\"image/jpeg\""));

    let parsed = BlobRef::from_json(&json).unwrap();
    assert_eq!(parsed, blob);
}

#[test]
fn test_blob_ref_exact_json() {
    let blob = BlobRef::new("bafy123", "image/png", 7);
    assert_eq!(
        blob.to_json(),
        "{\"$type\":\"blob\",\"ref\":{\"$link\":\"bafy123\"},\"mimeType\":\"image/png\",\"size\":7}"
    );
}

#[test]
fn test_blob_ref_accessors() {
    let blob = BlobRef::new("bafy123", "image/png", 7);
    assert_eq!(blob.cid(), "bafy123");
    assert_eq!(blob.mime_type, "image/png");
    assert_eq!(blob.size, 7);
}
