use quasar_chat::config::{bearer_text, authorization_header, require_api_key, StartupError};

#[test]
fn missing_key_fails_fast() {
    assert_eq!(require_api_key(None), Err(StartupError::MissingCredential));
}

#[test]
fn present_key_is_kept() {
    assert_eq!(require_api_key(Some("sk-test".to_string())), Ok("sk-test".to_string()));
    assert_eq!(require_api_key(Some(String::new())), Ok(String::new()));
}

#[test]
fn bearer_header_text() {
    assert_eq!(bearer_text("sk-test"), "Bearer sk-test");
}

#[test]
fn header_from_valid_key() {
    let v = authorization_header("sk-abc123").ok().unwrap().into_value();
    assert_eq!(v.to_str().unwrap(), "Bearer sk-abc123");
    let w = authorization_header("abc123").ok().unwrap().into_value();
    assert_eq!(w.as_bytes(), b"Bearer abc123");
    assert_eq!(&w.as_bytes()[7..], b"abc123");
    assert!(authorization_header("cl\u{e9}").is_ok());
    assert!(authorization_header("a\tb").is_ok());
}

#[test]
fn header_from_invalid_key() {
    assert_eq!(authorization_header("ab\ncd").err(), Some(StartupError::InvalidCredential));
    assert_eq!(authorization_header("sk\u{7f}").err(), Some(StartupError::InvalidCredential));
    assert_eq!(authorization_header("\u{1}").err(), Some(StartupError::InvalidCredential));
}
