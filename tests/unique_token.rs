use loded::unique_token::{TokenError, UniqueToken};

#[test]
fn new_tokens_have_prefix_and_random_tail() {
    let a = UniqueToken::new();
    let b = UniqueToken::new();
    let s = a.to_string();
    assert_eq!(s.len(), 25);
    assert!(s.starts_with("rdesktopd_"));
    assert!(s[10..].chars().all(|c| c.is_ascii_alphanumeric()));
    assert_ne!(a.as_str(), b.as_str());
}

#[test]
fn token_names_are_validated() {
    assert_eq!(UniqueToken::try_from("abc_1".to_string()).unwrap().as_str(), "abc_1");
    assert_eq!(UniqueToken::try_from("".to_string()).unwrap_err(), TokenError::InvalidName);
    assert_eq!(UniqueToken::try_from("1abc".to_string()).unwrap_err(), TokenError::InvalidName);
    assert_eq!(UniqueToken::try_from("a-b".to_string()).unwrap_err(), TokenError::InvalidName);
    assert_eq!(UniqueToken::try_from("a".repeat(256)).unwrap_err(), TokenError::InvalidName);
    assert!(UniqueToken::try_from("a".repeat(255)).is_ok());
}

#[test]
fn cloned_token_keeps_its_name() {
    let a = UniqueToken::new();
    assert_eq!(a.clone().as_str(), a.as_str());
}
