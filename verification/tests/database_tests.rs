use shortener::api_key::hash_api_key;
use shortener::{Database, DatabaseError};

fn setup() -> Database {
    let db = Database::new_in_memory().unwrap();
    db.init().unwrap();
    db
}

#[test]
fn create_and_list_users() {
    let db = setup();
    db.create_user("alice").unwrap();
    db.create_user("bob").unwrap();
    let users = db.list_users().unwrap();
    assert!(users.contains(&"alice".to_owned()));
    assert!(users.contains(&"bob".to_owned()));
}

#[test]
fn create_duplicate_user_fails() {
    let db = setup();
    db.create_user("alice").unwrap();
    let err = db.create_user("alice").unwrap_err();
    assert!(matches!(err, DatabaseError::UsernameAlreadyInUse));
}

#[test]
fn delete_user() {
    let db = setup();
    db.create_user("alice").unwrap();
    db.delete_user("alice").unwrap();
    let users = db.list_users().unwrap();
    assert!(!users.contains(&"alice".to_owned()));
}

#[test]
fn delete_nonexistent_user_fails() {
    let db = setup();
    let err = db.delete_user("nobody").unwrap_err();
    assert!(matches!(err, DatabaseError::NotFound));
}

#[test]
fn create_and_check_api_key() {
    let db = setup();
    db.create_user("alice").unwrap();
    let key = db.create_api_key("alice").unwrap();
    let username = db.check_api_key(&key).unwrap();
    assert_eq!(username, "alice");
}

#[test]
fn check_api_key_by_hash() {
    let db = setup();
    db.create_user("alice").unwrap();
    let key = db.create_api_key("alice").unwrap();
    let hash = hash_api_key(&key).unwrap();
    let username = db.check_api_key_by_hash(&hash).unwrap();
    assert_eq!(username, "alice");
}

#[test]
fn create_api_key_for_nonexistent_user_fails() {
    let db = setup();
    let err = db.create_api_key("nobody").unwrap_err();
    assert!(matches!(err, DatabaseError::NotFound));
}

#[test]
fn check_nonexistent_api_key_fails() {
    let db = setup();
    // Valid base64 but not in the database.
    let err = db
        .check_api_key("AAAAAAAAAAAAAAAAAAAAAAAAAAAAAAAAAAAAAAAAAAA=")
        .unwrap_err();
    assert!(matches!(err, DatabaseError::NotFound));
}

#[test]
fn check_api_key_invalid_base64_fails() {
    let db = setup();
    let err = db.check_api_key("not!valid!base64").unwrap_err();
    assert!(matches!(err, DatabaseError::ApiKey(_)));
}

#[test]
fn list_api_keys() {
    let db = setup();
    db.create_user("alice").unwrap();
    let key1 = db.create_api_key("alice").unwrap();
    let key2 = db.create_api_key("alice").unwrap();
    let hashes = db.list_api_keys("alice").unwrap();
    let hash1 = hash_api_key(&key1).unwrap();
    let hash2 = hash_api_key(&key2).unwrap();
    assert!(hashes.contains(&hash1));
    assert!(hashes.contains(&hash2));
}

#[test]
fn delete_api_key() {
    let db = setup();
    db.create_user("alice").unwrap();
    let key = db.create_api_key("alice").unwrap();
    db.delete_api_key(&key).unwrap();
    let err = db.check_api_key(&key).unwrap_err();
    assert!(matches!(err, DatabaseError::NotFound));
}

#[test]
fn delete_api_key_by_hash() {
    let db = setup();
    db.create_user("alice").unwrap();
    let key = db.create_api_key("alice").unwrap();
    let hash = hash_api_key(&key).unwrap();
    db.delete_api_key_by_hash(&hash).unwrap();
    let err = db.check_api_key(&key).unwrap_err();
    assert!(matches!(err, DatabaseError::NotFound));
}

#[test]
fn delete_nonexistent_api_key_fails() {
    let db = setup();
    let err = db.delete_api_key_by_hash("nonexistenthash").unwrap_err();
    assert!(matches!(err, DatabaseError::NotFound));
}

#[test]
fn deleting_user_deactivates_api_keys() {
    let db = setup();
    db.create_user("alice").unwrap();
    let key = db.create_api_key("alice").unwrap();
    db.delete_user("alice").unwrap();
    let err = db.check_api_key(&key).unwrap_err();
    assert!(matches!(err, DatabaseError::NotFound));
}

#[test]
fn create_and_get_url() {
    let db = setup();
    db.create_code("https://example.com", "abc", "alice").unwrap();
    let url = db.get_url("abc").unwrap();
    assert_eq!(url, "https://example.com");
}

#[test]
fn get_url_increments_hits() {
    let db = setup();
    db.create_code("https://example.com", "abc", "alice").unwrap();
    db.get_url("abc").unwrap();
    db.get_url("abc").unwrap();
    let info = db.get_url_info("abc").unwrap();
    assert_eq!(info.hits, 2);
}

#[test]
fn create_duplicate_code_fails() {
    let db = setup();
    db.create_code("https://example.com", "abc", "alice").unwrap();
    let err = db
        .create_code("https://other.com", "abc", "alice")
        .unwrap_err();
    assert!(matches!(err, DatabaseError::CodeAlreadyInUse));
}

#[test]
fn get_nonexistent_url_fails() {
    let db = setup();
    let err = db.get_url("nope").unwrap_err();
    assert!(matches!(err, DatabaseError::NotFound));
}

#[test]
fn list_codes() {
    let db = setup();
    db.create_code("https://example.com", "abc", "alice").unwrap();
    db.create_code("https://other.com", "def", "bob").unwrap();
    let codes = db.list_codes().unwrap();
    assert_eq!(codes.len(), 2);
    let code_values: Vec<_> = codes.iter().map(|c| c.code.as_str()).collect();
    assert!(code_values.contains(&"abc"));
    assert!(code_values.contains(&"def"));
}

#[test]
fn list_codes_empty() {
    let db = setup();
    let codes = db.list_codes().unwrap();
    assert!(codes.is_empty());
}

#[test]
fn get_url_info() {
    let db = setup();
    db.create_code("https://example.com", "abc", "alice").unwrap();
    let info = db.get_url_info("abc").unwrap();
    assert_eq!(info.code, "abc");
    assert_eq!(info.url, "https://example.com");
    assert_eq!(info.created_by, "alice");
    assert_eq!(info.hits, 0);
    assert!(info.last_hit.is_none());
}

#[test]
fn get_url_info_sets_last_hit_after_access() {
    let db = setup();
    db.create_code("https://example.com", "abc", "alice").unwrap();
    db.get_url("abc").unwrap();
    let info = db.get_url_info("abc").unwrap();
    assert!(info.last_hit.is_some());
}

#[test]
fn get_url_info_nonexistent_fails() {
    let db = setup();
    let err = db.get_url_info("nope").unwrap_err();
    assert!(matches!(err, DatabaseError::NotFound));
}

#[test]
fn delete_code() {
    let db = setup();
    db.create_code("https://example.com", "abc", "alice").unwrap();
    db.delete_code("abc").unwrap();
    let err = db.get_url("abc").unwrap_err();
    assert!(matches!(err, DatabaseError::NotFound));
}

#[test]
fn delete_nonexistent_code_fails() {
    let db = setup();
    let err = db.delete_code("nope").unwrap_err();
    assert!(matches!(err, DatabaseError::NotFound));
}

#[test]
fn database_error_messages() {
    assert_eq!(DatabaseError::NotFound.message(), "not found");
    assert_eq!(DatabaseError::UsernameAlreadyInUse.message(), "username already in use");
    assert_eq!(DatabaseError::CodeAlreadyInUse.message(), "code already in use");
    assert_eq!(
        DatabaseError::CouldNotGenerateApiKey.message(),
        "could not generate API key"
    );
}

#[test]
fn opening_a_missing_file_without_create_fails() {
    let err = Database::new("/nonexistent-directory/shortener.db", false).err().unwrap();
    assert!(matches!(err, DatabaseError::Sqlite(_)));
}

#[test]
fn codes_are_listed_oldest_first_and_deleted_user_keys_stay_listed_out() {
    let db = setup();
    db.create_user("alice").unwrap();
    let key = db.create_api_key("alice").unwrap();
    db.delete_api_key(&key).unwrap();
    assert!(db.list_api_keys("alice").unwrap().is_empty());
    let err = db.delete_api_key(&key).unwrap_err();
    assert!(matches!(err, DatabaseError::NotFound));
    db.delete_user("alice").unwrap();
    let err = db.create_api_key("alice").unwrap_err();
    assert!(matches!(err, DatabaseError::NotFound));
}
