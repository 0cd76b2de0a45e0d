use std::collections::HashSet;
use ticket_app::session_key::{
    generate_session_key, InvalidSessionKeyError, SessionKey, MAX_SESSION_KEY_BYTES, SESSION_KEY_LEN,
};

#[test]
fn generated_key_is_64_alphanumeric_characters() {
    let key = generate_session_key();
    assert_eq!(key.as_str().len(), 64);
    assert_eq!(SESSION_KEY_LEN, 64);
    assert!(key.as_str().chars().all(|c| c.is_ascii_alphanumeric()));
}

#[test]
fn ten_thousand_generated_keys_are_pairwise_distinct() {
    let mut seen = HashSet::new();
    for _ in 0..10_000 {
        let key = generate_session_key();
        assert_eq!(key.as_str().len(), 64);
        assert!(key.as_str().chars().all(|c| c.is_ascii_alphanumeric()));
        assert!(seen.insert(String::from(key)));
    }
    assert_eq!(seen.len(), 10_000);
}

#[test]
fn key_of_cookie_size_limit_is_accepted() {
    let text = "a".repeat(4064);
    assert_eq!(MAX_SESSION_KEY_BYTES, 4064);
    let key = SessionKey::parse(&text).unwrap();
    assert_eq!(key.as_str(), text);
}

#[test]
fn key_over_cookie_size_limit_is_rejected() {
    let text = "a".repeat(4065);
    assert_eq!(SessionKey::parse(&text), Err(InvalidSessionKeyError { byte_len: 4065 }));
}

#[test]
fn key_size_is_counted_in_bytes() {
    // 2033 two-byte characters: 4066 bytes.
    let text = "é".repeat(2033);
    assert_eq!(SessionKey::parse(&text), Err(InvalidSessionKeyError { byte_len: 4066 }));
    let text = "é".repeat(2032);
    assert!(SessionKey::parse(&text).is_ok());
}

#[test]
fn empty_key_is_accepted() {
    let key = SessionKey::parse("").unwrap();
    assert_eq!(key.as_str(), "");
}

#[test]
fn try_from_and_into_string_round_trip() {
    let key: SessionKey = "abc123".try_into().unwrap();
    assert_eq!(key.as_ref(), "abc123");
    let again = SessionKey::try_from(String::from("abc123")).unwrap();
    assert_eq!(again, key.clone());
    let text: String = key.into();
    assert_eq!(text, "abc123");
    assert!(SessionKey::try_from("x".repeat(5000)).is_err());
}

#[test]
fn parts_join_into_a_key() {
    let parts = vec!["ab".to_string(), "".to_string(), "c9".to_string()];
    let key = ticket_app::session_key::session_key_from_parts(&parts).unwrap();
    assert_eq!(key.as_str(), "abc9");
    let none: Vec<String> = Vec::new();
    assert_eq!(ticket_app::session_key::session_key_from_parts(&none).unwrap().as_str(), "");
}

#[test]
fn parts_too_long_for_a_cookie_are_refused() {
    let parts = vec!["a".repeat(4000), "b".repeat(65)];
    assert_eq!(
        ticket_app::session_key::session_key_from_parts(&parts),
        Err(InvalidSessionKeyError { byte_len: 4065 })
    );
}
