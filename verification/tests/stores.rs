use persona_proxy::characters::CharacterStore;
use persona_proxy::errors::ModelError;
use persona_proxy::webhooks::WebhookStore;

#[test]
fn with_id_finds_inserted_character() {
    let mut store = CharacterStore::new();
    store.insert(7, "Kokoro", "http://x/img.png", "koko:").unwrap();
    store.insert(7, "Mary", "http://y/img.png", "mary:").unwrap();
    let c = store.with_id(1).unwrap();
    assert_eq!(c.char_id, 1);
    assert_eq!(c.user_id, 7);
    assert_eq!(c.char_name, "Mary");
    assert_eq!(c.char_avatar, "http://y/img.png");
    assert_eq!(c.char_prefix, "mary:");
}

#[test]
fn with_id_missing_is_no_such_item() {
    let store = CharacterStore::new();
    assert_eq!(store.with_id(0).unwrap_err(), ModelError::NoSuchItem);
}

#[test]
fn with_name_for_user_matches_name_and_owner() {
    let mut store = CharacterStore::new();
    store.insert(7, "Kokoro", "http://x/img.png", "koko:").unwrap();
    store.insert(8, "Kokoro", "http://z/img.png", "other:").unwrap();
    let c = store.with_name_for_user("Kokoro", 8).unwrap();
    assert_eq!(c.user_id, 8);
    assert_eq!(c.char_prefix, "other:");
    assert_eq!(
        store.with_name_for_user("Nobody", 7).unwrap_err(),
        ModelError::NoSuchItem
    );
}

#[test]
fn all_with_user_id_keeps_store_order() {
    let mut store = CharacterStore::new();
    store.insert(7, "A", "http://a/img.png", "a:").unwrap();
    store.insert(9, "X", "http://x/img.png", "x:").unwrap();
    store.insert(7, "B", "http://b/img.png", "b:").unwrap();
    let mine = store.all_with_user_id(7).unwrap();
    assert_eq!(mine.len(), 2);
    assert_eq!(mine[0].char_name, "A");
    assert_eq!(mine[1].char_name, "B");
    assert!(store.all_with_user_id(1000).unwrap().is_empty());
}

#[test]
fn webhook_store_is_per_channel() {
    let mut hooks = WebhookStore::new();
    assert_eq!(
        hooks.webhook_for_channel(42).unwrap_err(),
        ModelError::NoSuchItem
    );
    hooks.insert_binding(42, String::from("https://a")).unwrap();
    hooks.insert_binding(43, String::from("https://b")).unwrap();
    assert_eq!(hooks.webhook_for_channel(42).unwrap(), "https://a");
    assert_eq!(hooks.webhook_for_channel(43).unwrap(), "https://b");
    assert_eq!(
        hooks.webhook_for_channel(44).unwrap_err(),
        ModelError::NoSuchItem
    );
}

#[test]
fn model_error_messages_describe_each_variant() {
    assert_eq!(
        ModelError::ConnectionError.message(),
        "An issue with the connection to the database occurred."
    );
    assert_eq!(
        ModelError::QueryDatabaseError.message(),
        "An error occurred while querying the database."
    );
    assert_eq!(
        ModelError::NoSuchItem.message(),
        "No such item found in the database."
    );
    assert_eq!(
        ModelError::MigrationError.message(),
        "An error occurred while running database migrations."
    );
}
