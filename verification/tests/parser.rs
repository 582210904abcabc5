use flowy_user::errors::ErrorCode;
use flowy_user::parser::{UserEmail, UserName, UserPassword};

#[test]
fn email_parse_returns_input_unchanged() {
    let parsed = UserEmail::parse(String::from("user@example.org")).unwrap();
    assert_eq!(parsed.0, "user@example.org");
}

#[test]
fn email_parse_rejects_missing_at_sign() {
    let e = UserEmail::parse(String::from("example.org")).unwrap_err();
    assert_eq!(e, ErrorCode::EmailFormatInvalid);
}

#[test]
fn email_parse_rejects_empty_input() {
    let e = UserEmail::parse(String::new()).unwrap_err();
    assert_eq!(e, ErrorCode::EmailIsEmpty);
}

#[test]
fn password_parse_returns_input_unchanged() {
    let parsed = UserPassword::parse(String::from("Secret123")).unwrap();
    assert_eq!(parsed.0, "Secret123");
}

#[test]
fn password_parse_rejects_newline_and_carriage_return() {
    let e = UserPassword::parse(String::from("a\nb")).unwrap_err();
    assert_eq!(e, ErrorCode::PasswordForbiddenChar);
    let e = UserPassword::parse(String::from("a\rb")).unwrap_err();
    assert_eq!(e, ErrorCode::PasswordForbiddenChar);
}

#[test]
fn name_parse_returns_input_unchanged() {
    let parsed = UserName::parse(String::from("Ada")).unwrap();
    assert_eq!(parsed.0, "Ada");
}

#[test]
fn name_parse_accepts_name_at_length_limit() {
    let parsed = UserName::parse("n".repeat(100)).unwrap();
    assert_eq!(parsed.0.len(), 100);
}
