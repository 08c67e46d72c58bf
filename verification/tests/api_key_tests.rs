use shortener::api_key::{generate_api_key, hash_api_key};

#[test]
fn generate_api_key_is_non_empty() {
    let key = generate_api_key();
    assert!(!key.is_empty());
}

#[test]
fn hash_api_key_is_deterministic() {
    let key = generate_api_key();
    let hash1 = hash_api_key(&key).unwrap();
    let hash2 = hash_api_key(&key).unwrap();
    assert_eq!(hash1, hash2);
}

#[test]
fn hash_api_key_differs_for_different_keys() {
    let key1 = generate_api_key();
    let key2 = generate_api_key();
    let hash1 = hash_api_key(&key1).unwrap();
    let hash2 = hash_api_key(&key2).unwrap();
    assert_ne!(hash1, hash2);
}

#[test]
fn hash_api_key_is_64_hex_chars() {
    let key = generate_api_key();
    let hash = hash_api_key(&key).unwrap();
    assert_eq!(hash.len(), 64);
    assert!(hash.chars().all(|c| c.is_ascii_hexdigit()));
}

#[test]
fn hash_api_key_errors_on_invalid_base64() {
    assert!(hash_api_key("not!valid!base64").is_err());
}

#[test]
fn generated_api_key_is_url_safe_base64_of_32_bytes() {
    let key = generate_api_key();
    assert_eq!(key.len(), 44);
    assert!(key.ends_with('='));
    assert!(key[..43]
        .chars()
        .all(|c| c.is_ascii_alphanumeric() || c == '-' || c == '_'));
}

#[test]
fn hash_api_key_of_known_key() {
    // 32 zero bytes, URL-safe base64 with padding.
    let hash = hash_api_key("AAAAAAAAAAAAAAAAAAAAAAAAAAAAAAAAAAAAAAAAAAA=").unwrap();
    assert_eq!(
        hash,
        "66687aadf862bd776c8fc18b8e9f8e20089714856ee233b3902a591d0d5f2925"
    );
    // The empty text decodes to no bytes: the digest of the empty input.
    assert_eq!(
        hash_api_key("").unwrap(),
        "e3b0c44298fc1c149afbf4c8996fb92427ae41e4649b934ca495991b7852b855"
    );
}
