use atproto_client::models::{
    avatar_url_for, build_recipe_record, format_elapsed, get_mock_recipe_detail, get_mock_recipes,
    parse_profile_value, profile_with_avatar, recipe_detail_from_record, recipe_entry_from_listing,
    time_ago, time_ago_label, RecipeForm,
};

#[test]
fn test_mock_recipes_shape() {
    let recipes = get_mock_recipes();
    assert_eq!(recipes.len(), 10);
    for (k, recipe) in recipes.iter().enumerate() {
        assert_eq!(recipe.id, (k + 1).to_string());
        assert!(!recipe.name.is_empty());
    }
    assert_eq!(recipes[0].name, "Perfect Sourdough Bread");
    assert_eq!(recipes[9].name, "Chocolate Lava Cake");
}

#[test]
fn test_mock_detail_lookup() {
    let detail = get_mock_recipe_detail("1").unwrap();
    assert_eq!(detail.id, "1");
    assert_eq!(detail.name, "Perfect Sourdough Bread");
    assert_eq!(detail.comments.len(), 2);
    let generic = get_mock_recipe_detail("7").unwrap();
    assert_eq!(generic.id, "7");
    assert_eq!(generic.name, "Creamy Mushroom Risotto");
    assert!(generic.comments.is_empty());
    assert!(get_mock_recipe_detail("11").is_none());
    assert!(get_mock_recipe_detail("nope").is_none());
}

#[test]
fn test_recipe_record_building() {
    let record = build_recipe_record(
        RecipeForm {
            name: "Bread".to_string(),
            portions: 0,
            time: 45,
            content: "Mix.".to_string(),
        },
        "2024-01-01T00:00:00Z".to_string(),
    );
    assert_eq!(record.portions, 1);
    assert_eq!(record.time, 45);
    assert_eq!(
        record.to_json(),
        "{\"name\":\"Bread\",\"portions\":1,\"time\":45,\"content\":\"Mix.\",\
         \"createdAt\":\"2024-01-01T00:00:00Z\"}"
    );
}

#[test]
fn test_time_ago_labels() {
    assert_eq!(time_ago_label(0), "just now");
    assert_eq!(time_ago_label(59), "just now");
    assert_eq!(time_ago_label(60), "1 min ago");
    assert_eq!(time_ago_label(3599), "59 min ago");
    assert_eq!(time_ago_label(7200), "2 hours ago");
    assert_eq!(time_ago_label(86400 * 3), "3 days ago");
}

#[test]
fn test_time_ago_parses_rfc3339() {
    // 2024-01-01T00:00:00Z is 1704067200 seconds after the epoch.
    assert_eq!(time_ago("2024-01-01T00:00:00Z", 1704067200 + 30), "just now");
    assert_eq!(time_ago("2024-01-01T00:00:00Z", 1704067200 + 7200), "2 hours ago");
    assert_eq!(time_ago("not a timestamp", 1704067200), "recently");
}

#[test]
fn test_json_quoting_escapes() {
    let record = build_recipe_record(
        RecipeForm {
            name: "He said \"hi\"".to_string(),
            portions: 2,
            time: 5,
            content: "line\nbreak".to_string(),
        },
        "t".to_string(),
    );
    assert_eq!(
        record.to_json(),
        "{\"name\":\"He said \\\"hi\\\"\",\"portions\":2,\"time\":5,\
         \"content\":\"line\\nbreak\",\"createdAt\":\"t\"}"
    );
}

#[test]
fn test_long_scale_labels() {
    assert_eq!(format_elapsed(59), "just now");
    assert_eq!(format_elapsed(120), "2 min ago");
    assert_eq!(format_elapsed(7200), "2 hours ago");
    assert_eq!(format_elapsed(86400 * 5), "5 days ago");
    assert_eq!(format_elapsed(86400 * 61), "2 months ago");
    assert_eq!(format_elapsed(86400 * 800), "2 years ago");
}

#[test]
fn test_recipe_detail_from_record() {
    let value = "{\"name\":\"Bread\",\"content\":\"Mix.\",\"portions\":2,\"time\":75,\
        \"createdAt\":\"2024-01-01T00:00:00Z\"}";
    let detail =
        recipe_detail_from_record("3k2f5v", "alice.example.com", value, 1704067200 + 60).unwrap();
    assert_eq!(detail.id, "3k2f5v");
    assert_eq!(detail.name, "Bread");
    assert_eq!(detail.content, "Mix.");
    assert_eq!(detail.portions, 2);
    assert_eq!(detail.time, 75);
    assert_eq!(detail.author_handle, "alice.example.com");
    assert_eq!(detail.time_ago, "1 min ago");
    assert!(detail.comments.is_empty());
    assert!(recipe_detail_from_record("k", "h", "{}", 0).is_none());
}

#[test]
fn test_profile_value_and_avatar_url() {
    let value = "{\"displayName\":\"Alice\",\"description\":\"cooks\",\
        \"avatar\":{\"$type\":\"blob\",\"ref\":{\"$link\":\"bafyavatar\"},\
        \"mimeType\":\"image/jpeg\",\"size\":5}}";
    let profile = parse_profile_value(value).unwrap();
    assert_eq!(profile.display_name.as_deref(), Some("Alice"));
    assert_eq!(profile.description.as_deref(), Some("cooks"));
    assert_eq!(profile.avatar_cid.as_deref(), Some("bafyavatar"));
    assert!(profile.banner_cid.is_none());
    let url = avatar_url_for(&profile, "https://pds.example/", "did:plc:abc123").unwrap();
    assert_eq!(
        url,
        "https://pds.example/xrpc/com.atproto.sync.getBlob?did=did%3Aplc%3Aabc123&cid=bafyavatar"
    );
    let bare = parse_profile_value("{}").unwrap();
    assert!(avatar_url_for(&bare, "https://pds.example", "did:plc:abc123").is_none());
}

#[test]
fn test_recipe_entry_from_listing() {
    let value = "{\"name\":\"Bread\",\"content\":\"Mix.\",\"portions\":2,\"time\":75,\
        \"createdAt\":\"2024-01-01T00:00:00Z\"}";
    let entry = recipe_entry_from_listing(
        "at://did:plc:abc123/eu.atchef.recipe/3k2f5v",
        value,
        "alice.example.com",
        1704067200 + 120,
    )
    .unwrap();
    assert_eq!(entry.id, "3k2f5v");
    assert_eq!(entry.name, "Bread");
    assert_eq!(entry.author_handle, "alice.example.com");
    assert_eq!(entry.time_ago, "2 min ago");
    assert_eq!(entry.comment_count, 0);
    assert!(recipe_entry_from_listing("at://r/c/k", "nope", "h", 0).is_none());
}

#[test]
fn test_profile_with_avatar_composition() {
    let value = "{\"displayName\":\"Alice\",\"avatar\":{\"ref\":{\"$link\":\"bafyav\"}}}";
    let (profile, url) =
        profile_with_avatar(value, "https://pds.example", "did:plc:abc123").unwrap();
    assert_eq!(profile.display_name.as_deref(), Some("Alice"));
    assert_eq!(
        url.as_deref(),
        Some("https://pds.example/xrpc/com.atproto.sync.getBlob?did=did%3Aplc%3Aabc123&cid=bafyav")
    );
    let (bare, no_url) = profile_with_avatar("{}", "https://pds.example", "d").unwrap();
    assert!(bare.avatar_cid.is_none());
    assert!(no_url.is_none());
}
