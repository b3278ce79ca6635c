use auth_service::data_stores::UserStoreError;
use auth_service::email::Email;

#[test]
fn parse_invalid_email_returns_err() {
    assert_eq!(
        Email::parse("thisisnotanemail").unwrap_err(),
        UserStoreError::InvalidEmail
    )
}

#[test]
fn parse_valid_email_returns_ok() {
    assert_eq!(
        Email::parse("name@example.com").unwrap().as_str(),
        "name@example.com"
    )
}

#[test]
fn email_without_domain_is_rejected() {
    assert_eq!(Email::parse("name@"), Err(UserStoreError::InvalidEmail));
    assert_eq!(Email::parse(""), Err(UserStoreError::InvalidEmail));
}

#[test]
fn parsed_emails_compare_by_text() {
    let a = Email::parse("a@b.com").unwrap();
    let b = Email::parse("a@b.com").unwrap();
    let c = Email::parse("c@b.com").unwrap();
    assert!(a.same_as(&b));
    assert!(!a.same_as(&c));
    assert_eq!(a.to_string(), "a@b.com".to_string());
    assert_eq!(a.clone(), b);
}
