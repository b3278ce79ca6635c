use auth_service::api_error::AuthAPIError;
use auth_service::data_stores::{BannedTokenStore, BannedTokenStoreError};
use auth_service::email::Email;
use auth_service::hashset_banned_token_store::HashsetBannedTokenStore;
use auth_service::token::{TokenService, TOKEN_TTL_SECONDS};

const NOW: u64 = 1_700_000_000;

fn service() -> TokenService {
    TokenService::new("secret".to_string())
}

#[test]
fn issued_token_carries_subject_and_expiry() {
    let tokens = service();
    let email = Email::parse("a@b.com").unwrap();
    let token = tokens.issue(&email, NOW).unwrap();
    assert_ne!(token, "a@b.com");
    assert_eq!(token.split('.').count(), 3);
    let banned = HashsetBannedTokenStore::new();
    let claims = tokens.validate(&token, &banned, NOW).unwrap();
    assert_eq!(claims.sub, "a@b.com".to_string());
    assert_eq!(claims.exp, NOW + 600);
    assert_eq!(TOKEN_TTL_SECONDS, 600);
}

#[test]
fn token_valid_until_expiry() {
    let tokens = service();
    let email = Email::parse("a@b.com").unwrap();
    let token = tokens.issue(&email, NOW).unwrap();
    let banned = HashsetBannedTokenStore::new();
    assert!(tokens.validate(&token, &banned, NOW + 599).is_ok());
    assert_eq!(
        tokens.validate(&token, &banned, NOW + 600),
        Err(AuthAPIError::InvalidToken)
    );
}

#[test]
fn revoked_token_is_rejected_before_expiry() {
    let tokens = service();
    let email = Email::parse("a@b.com").unwrap();
    let token = tokens.issue(&email, NOW).unwrap();
    let mut banned = HashsetBannedTokenStore::new();
    assert!(tokens.validate(&token, &banned, NOW + 1).is_ok());
    BannedTokenStore::add_token(&mut banned, token.clone()).unwrap();
    assert_eq!(
        tokens.validate(&token, &banned, NOW + 1),
        Err(AuthAPIError::InvalidToken)
    );
}

#[test]
fn token_signed_with_another_secret_is_rejected() {
    let email = Email::parse("a@b.com").unwrap();
    let token = TokenService::new("other".to_string())
        .issue(&email, NOW)
        .unwrap();
    let banned = HashsetBannedTokenStore::new();
    assert_eq!(
        service().validate(&token, &banned, NOW),
        Err(AuthAPIError::InvalidToken)
    );
    assert_eq!(
        service().validate("invalid_token", &banned, NOW),
        Err(AuthAPIError::InvalidToken)
    );
}

#[test]
fn check_claims_follows_the_revocation_answer() {
    let tokens = service();
    let email = Email::parse("a@b.com").unwrap();
    let token = tokens.issue(&email, NOW).unwrap();
    assert!(tokens.check_claims(&token, false, NOW).is_ok());
    assert_eq!(
        tokens.check_claims(&token, true, NOW),
        Err(AuthAPIError::InvalidToken)
    );
}

#[test]
fn expiry_overflow_is_unexpected() {
    let email = Email::parse("a@b.com").unwrap();
    assert_eq!(
        service().issue(&email, u64::MAX - 10),
        Err(AuthAPIError::UnexpectedError)
    );
}

#[test]
fn error_statuses_and_messages() {
    let cases = [
        (AuthAPIError::IncorrectCredentials, 401, "Incorrect credentials"),
        (AuthAPIError::InvalidCredentials, 400, "Invalid credentials"),
        (AuthAPIError::InvalidToken, 401, "Invalid token"),
        (AuthAPIError::MissingToken, 400, "Missing token"),
        (AuthAPIError::UserAlreadyExists, 409, "User already exists"),
        (AuthAPIError::UnexpectedError, 500, "Unexpected error"),
    ];
    for (error, status, message) in cases {
        assert_eq!(error.status_code(), status);
        assert_eq!(error.message(), message.to_string());
        assert_eq!(error.to_error_response().error, message.to_string());
    }
}

#[test]
fn judge_follows_the_store_answer() {
    let tokens = service();
    let email = Email::parse("a@b.com").unwrap();
    let token = tokens.issue(&email, NOW).unwrap();
    assert!(tokens.judge(&token, Ok(false), NOW).is_ok());
    assert_eq!(
        tokens.judge(&token, Ok(true), NOW),
        Err(AuthAPIError::InvalidToken)
    );
    assert_eq!(
        tokens.judge(&token, Err(BannedTokenStoreError::UnexpectedError), NOW),
        Err(AuthAPIError::InvalidToken)
    );
}
