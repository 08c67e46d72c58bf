use shortener::{generate_code, is_valid_code};

#[test]
fn generate_code_has_correct_length() {
    for length in [1, 5, 6, 10, 20] {
        let code = generate_code(length);
        assert_eq!(code.len(), length);
    }
}

#[test]
fn generate_code_is_alphanumeric() {
    let code = generate_code(100);
    assert!(code.chars().all(|c| c.is_ascii_alphanumeric()));
}

#[test]
fn is_valid_code_accepts_alphanumeric() {
    assert!(is_valid_code("abc123"));
    assert!(is_valid_code("ABC"));
    assert!(is_valid_code("123"));
}

#[test]
fn is_valid_code_accepts_dash_and_underscore() {
    assert!(is_valid_code("hello-world"));
    assert!(is_valid_code("hello_world"));
    assert!(is_valid_code("a-b_c"));
}

#[test]
fn is_valid_code_rejects_empty_string() {
    assert!(!is_valid_code(""));
}

#[test]
fn is_valid_code_rejects_special_characters() {
    assert!(!is_valid_code("hello world"));
    assert!(!is_valid_code("hello/world"));
    assert!(!is_valid_code("hello.world"));
}

#[test]
fn is_valid_code_rejects_non_ascii_letters() {
    assert!(!is_valid_code("café"));
    assert!(!is_valid_code("a+b"));
    assert!(is_valid_code("Z9-_"));
}

#[test]
fn generated_codes_are_valid_codes() {
    for length in [1, 6, 32] {
        assert!(is_valid_code(&generate_code(length)));
    }
    assert_eq!(generate_code(0), "");
}
