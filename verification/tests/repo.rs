use atproto_client::repo::{
    decode_list_records, decode_record_ref, decode_upload_blob, list_records_params_with_options,
    rkey_from_uri, CreateRecordInput, DeleteRecordInput, PutRecordInput,
};
use atproto_client::Error;

#[test]
fn test_put_record_body() {
    let input = PutRecordInput {
        repo: "did:plc:abc123".to_string(),
        collection: "app.example.post".to_string(),
        rkey: "3k2f5v".to_string(),
        record: "{\"name\":\"x\"}".to_string(),
        swap_record: None,
        swap_commit: None,
        validate: None,
    };
    assert_eq!(
        input.to_json(),
        "{\"repo\":\"did:plc:abc123\",\"collection\":\"app.example.post\",\
         \"rkey\":\"3k2f5v\",\"record\":{\"name\":\"x\"}}"
    );
}

#[test]
fn test_put_record_body_with_options() {
    let input = PutRecordInput {
        repo: "r".to_string(),
        collection: "c".to_string(),
        rkey: "k".to_string(),
        record: "{}".to_string(),
        swap_record: Some("swap1".to_string()),
        swap_commit: Some("swap2".to_string()),
        validate: Some(false),
    };
    assert_eq!(
        input.to_json(),
        "{\"repo\":\"r\",\"collection\":\"c\",\"rkey\":\"k\",\"record\":{},\
         \"swapRecord\":\"swap1\",\"swapCommit\":\"swap2\",\"validate\":false}"
    );
}

#[test]
fn test_create_record_body() {
    let input = CreateRecordInput {
        repo: "did:plc:abc123".to_string(),
        collection: "app.example.post".to_string(),
        record: "{\"name\":\"x\"}".to_string(),
        rkey: Some("3k2f5v".to_string()),
        swap_commit: None,
        validate: None,
    };
    assert_eq!(
        input.to_json(),
        "{\"repo\":\"did:plc:abc123\",\"collection\":\"app.example.post\",\
         \"record\":{\"name\":\"x\"},\"rkey\":\"3k2f5v\"}"
    );
}

#[test]
fn test_delete_record_body() {
    let input = DeleteRecordInput {
        repo: "r".to_string(),
        collection: "c".to_string(),
        rkey: "k".to_string(),
        swap_record: None,
        swap_commit: None,
    };
    assert_eq!(input.to_json(), "{\"repo\":\"r\",\"collection\":\"c\",\"rkey\":\"k\"}");
}

#[test]
fn test_record_write_response() {
    let (uri, cid) = decode_record_ref(
        200,
        "{\"uri\":\"at://did:plc:abc123/c/k\",\"cid\":\"bafy2\"}".to_string(),
    )
    .unwrap();
    assert_eq!(uri, "at://did:plc:abc123/c/k");
    assert_eq!(cid, "bafy2");
    assert!(matches!(
        decode_record_ref(200, "not json".to_string()),
        Err(Error::Json(_))
    ));
    assert!(decode_record_ref(400, "{\"error\":\"InvalidSwap\"}".to_string()).is_err());
}

#[test]
fn test_list_records_response() {
    let body = "{\"records\":[\
        {\"uri\":\"at://r/c/k1\",\"cid\":\"b1\",\"value\":{\"name\":\"a\"}},\
        {\"uri\":\"at://r/c/k2\",\"cid\":\"b2\",\"value\":{\"name\":\"b\"}}],\
        \"cursor\":\"next\"}";
    let out = decode_list_records(200, body.to_string()).unwrap();
    assert_eq!(out.records.len(), 2);
    assert_eq!(out.records[0].uri, "at://r/c/k1");
    assert_eq!(out.records[1].value, "{\"name\":\"b\"}");
    assert_eq!(out.cursor.as_deref(), Some("next"));
}

#[test]
fn test_upload_blob_response() {
    let body = "{\"blob\":{\"$type\":\"blob\",\"ref\":{\"$link\":\"bafy3\"},\
        \"mimeType\":\"image/jpeg\",\"size\":12345}}";
    let blob = decode_upload_blob(200, body.to_string()).unwrap();
    assert_eq!(blob.cid(), "bafy3");
    assert_eq!(blob.mime_type, "image/jpeg");
    assert_eq!(blob.size, 12345);
}

#[test]
fn test_list_params_with_options() {
    let params = list_records_params_with_options("r", "c", Some(25), Some("cur"), Some(true));
    assert_eq!(
        params,
        vec![
            ("repo".to_string(), "r".to_string()),
            ("collection".to_string(), "c".to_string()),
            ("limit".to_string(), "25".to_string()),
            ("cursor".to_string(), "cur".to_string()),
            ("reverse".to_string(), "true".to_string()),
        ]
    );
    let bare = list_records_params_with_options("r", "c", None, None, None);
    assert_eq!(
        bare,
        vec![
            ("repo".to_string(), "r".to_string()),
            ("collection".to_string(), "c".to_string()),
        ]
    );
}

#[test]
fn test_rkey_from_uri() {
    assert_eq!(rkey_from_uri("at://did:plc:abc123/app.example.post/3k2f5v"), "3k2f5v");
    assert_eq!(rkey_from_uri("no-slashes"), "no-slashes");
    assert_eq!(rkey_from_uri("trailing/"), "");
}
