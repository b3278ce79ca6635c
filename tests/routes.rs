use auth_service::api_error::AuthAPIError;
use auth_service::data_stores::{
    LoginAttemptId, TwoFACode, TwoFACodeStoreError, User, UserStoreError,
};
use auth_service::email::Email;
use auth_service::hashmap_two_fa_code_store::HashmapTwoFACodeStore;
use auth_service::hashmap_user_store::HashmapUserStore;
use auth_service::hashset_banned_token_store::HashsetBannedTokenStore;
use auth_service::data_stores::BannedTokenStoreError;
use auth_service::routes::{
    challenge_check, challenge_result, check_login, consume_result, finish_login, issue_challenge,
    login, logout, password_stage, revocation_result, signup, signup_result, user_check,
    verify_2fa, verify_token, LoginOutcome, LoginRequest, LoginResponse, SignupRequest,
    Verify2FARequest, VerifyTokenRequest,
};
use auth_service::token::TokenService;
use uuid::Uuid;

const NOW: u64 = 1_700_000_000;

struct TestApp {
    users: HashmapUserStore,
    codes: HashmapTwoFACodeStore,
    banned: HashsetBannedTokenStore,
    tokens: TokenService,
}

impl TestApp {
    fn new() -> Self {
        TestApp {
            users: HashmapUserStore::new(),
            codes: HashmapTwoFACodeStore::new(),
            banned: HashsetBannedTokenStore::new(),
            tokens: TokenService::new("secret".to_string()),
        }
    }

    fn signup(&mut self, email: &str, password: &str, requires_2fa: bool) -> Result<u16, AuthAPIError> {
        let request = SignupRequest {
            email: email.to_string(),
            password: password.to_string(),
            requires_2fa,
        };
        signup(&mut self.users, request).map(|response| {
            assert_eq!(response.message, "User created successfully!");
            201
        })
    }

    fn login(&mut self, email: &str, password: &str) -> Result<LoginOutcome, AuthAPIError> {
        let request = LoginRequest {
            email: email.to_string(),
            password: password.to_string(),
        };
        login(&self.users, &mut self.codes, &self.tokens, request, NOW)
    }

    fn verify_2fa(&mut self, email: &str, id: &str, code: &str) -> Result<String, AuthAPIError> {
        let request = Verify2FARequest {
            email: email.to_string(),
            login_attempt_id: id.to_string(),
            two_fa_code: code.to_string(),
        };
        verify_2fa(&self.users, &mut self.codes, &self.tokens, request, NOW + 1)
    }

    fn verify_token(&self, token: &str) -> u16 {
        let request = VerifyTokenRequest {
            token: token.to_string(),
        };
        match verify_token(&self.banned, &self.tokens, request, NOW + 2) {
            Ok(_) => 200,
            Err(e) => e.status_code(),
        }
    }

    fn logout(&mut self, token: Option<&str>) -> u16 {
        match logout(
            &mut self.banned,
            &self.tokens,
            token.map(|t| t.to_string()),
            NOW + 3,
        ) {
            Ok(()) => 200,
            Err(e) => e.status_code(),
        }
    }
}

fn get_random_email() -> String {
    format!("{}@example.com", Uuid::new_v4())
}

fn status(result: &Result<LoginOutcome, AuthAPIError>) -> u16 {
    match result {
        Ok(outcome) => outcome.status_code(),
        Err(e) => e.status_code(),
    }
}

#[test]
fn should_return_200_if_valid_credentials_and_2fa_disabled() {
    let mut app = TestApp::new();
    let random_email = get_random_email();
    assert_eq!(app.signup(&random_email, "Password123!", false), Ok(201));
    let response = app.login(&random_email, "Password123!");
    assert_eq!(status(&response), 200);
    match response.unwrap() {
        LoginOutcome::Authenticated(token) => assert!(!token.is_empty()),
        LoginOutcome::AwaitingSecondFactor(_, _) => panic!("No auth cookie found"),
    }
}

#[test]
fn should_return_206_if_valid_credentials_and_2fa_enabled() {
    let mut app = TestApp::new();
    let random_email = Email::parse(&get_random_email()).expect("Random email was not parseable");
    assert_eq!(app.signup(random_email.as_str(), "Password123!", true), Ok(201));
    let response = app.login(random_email.as_str(), "Password123!");
    assert_eq!(status(&response), 206);
    let outcome = response.unwrap();
    let json_body = match outcome.response() {
        LoginResponse::TwoFactorAuth(body) => body,
        LoginResponse::RegularAuth => panic!("Could not deserialize response body to TwoFactorAuthResponse"),
    };
    assert_eq!(json_body.message, "2FA required".to_owned());
    let (login_attempt_id, _) = app.codes.get_code(&random_email).unwrap();
    assert_eq!(
        LoginAttemptId::parse(&json_body.login_attempt_id).unwrap(),
        login_attempt_id
    );
}

#[test]
fn login_should_return_400_if_invalid_input() {
    let mut app = TestApp::new();
    let response = app.login("IDontExist@gmail.com", "InvalidPassword");
    assert_eq!(status(&response), 400);
    assert!(matches!(response, Err(AuthAPIError::InvalidCredentials)));
}

#[test]
fn login_should_return_401_if_incorrect_credentials() {
    let mut app = TestApp::new();
    assert_eq!(
        app.signup("mreynolds@serenity.co", "N0thingInTheverse!", false),
        Ok(201)
    );
    let response = app.login("mreynolds@serenity.co", "Noth1ngInTheverse?");
    assert_eq!(status(&response), 401);
}

#[test]
fn wrong_password_and_unknown_user_look_the_same() {
    let mut app = TestApp::new();
    assert_eq!(app.signup("a@b.com", "Password123!", false), Ok(201));
    let wrong_password = app.login("a@b.com", "Wrong123!pass");
    let unknown_user = app.login("nobody@b.com", "Password123!");
    assert!(matches!(wrong_password, Err(AuthAPIError::IncorrectCredentials)));
    assert!(matches!(unknown_user, Err(AuthAPIError::IncorrectCredentials)));
    assert_eq!(status(&wrong_password), 401);
    assert_eq!(status(&unknown_user), 401);
    let (a, b) = (wrong_password.err().unwrap(), unknown_user.err().unwrap());
    assert_eq!(a.to_error_response(), b.to_error_response());
}

#[test]
fn should_return_201_if_valid_input() {
    let mut app = TestApp::new();
    assert_eq!(
        app.signup("mreynolds@serenity.co", "N0thingInTheverse!", true),
        Ok(201)
    );
}

#[test]
fn signup_should_return_400_if_invalid_input() {
    let mut app = TestApp::new();
    let bad_email = app.signup("mreynolds_serenity.co", "N0thingInTheverse!", true);
    let bad_password = app.signup("mreynolds@serenity.co", "pass", true);
    for result in [bad_email, bad_password] {
        let error = result.unwrap_err();
        assert_eq!(error.status_code(), 400);
        assert_eq!(error.to_error_response().error, "Invalid credentials".to_owned());
    }
    // nothing was stored: the address is still free
    assert_eq!(
        app.signup("mreynolds@serenity.co", "N0thingInTheverse!", true),
        Ok(201)
    );
}

#[test]
fn should_return_409_if_email_already_exists() {
    let mut app = TestApp::new();
    assert_eq!(
        app.signup("mreynolds@serenity.co", "N0thingInTheverse!", true),
        Ok(201)
    );
    let error = app
        .signup("mreynolds@serenity.co", "N0thingInTheverse!", true)
        .unwrap_err();
    assert_eq!(error.status_code(), 409);
    assert_eq!(error.to_error_response().error, "User already exists".to_owned());
}

#[test]
fn malformed_login_leaves_the_challenge_store_unchanged() {
    let mut app = TestApp::new();
    assert_eq!(app.signup("a@b.com", "Password123!", true), Ok(201));
    let email = Email::parse("a@b.com").unwrap();
    assert!(app.login("a@b.com", "short").is_err());
    assert!(app.codes.get_code(&email).is_err());
}

fn two_factor_login(app: &mut TestApp) -> (Email, LoginAttemptId, TwoFACode) {
    let random_email = Email::parse(&get_random_email()).expect("Random email was not parseable");
    assert_eq!(app.signup(random_email.as_str(), "Password123!", true), Ok(201));
    let response = app.login(random_email.as_str(), "Password123!");
    assert_eq!(status(&response), 206);
    let json_body = match response.unwrap().response() {
        LoginResponse::TwoFactorAuth(body) => body,
        LoginResponse::RegularAuth => panic!("Could not deserialize response body to TwoFactorAuthResponse"),
    };
    assert_eq!(json_body.message, "2FA required".to_owned());
    let (login_attempt_id, two_fa_code) = app.codes.get_code(&random_email).unwrap();
    assert_eq!(
        LoginAttemptId::parse(&json_body.login_attempt_id).unwrap(),
        login_attempt_id
    );
    (random_email, login_attempt_id, two_fa_code)
}

#[test]
fn should_return_200_if_correct_code() {
    let mut app = TestApp::new();
    let (email, id, code) = two_factor_login(&mut app);
    let token = app
        .verify_2fa(email.as_str(), id.as_str(), code.as_str())
        .expect("No auth cookie found");
    assert!(!token.is_empty());
    assert_eq!(app.verify_token(&token), 200);
}

#[test]
fn verify_2fa_should_return_400_if_invalid_input() {
    let mut app = TestApp::new();
    let login_attempt_id = LoginAttemptId::default();
    let result = app.verify_2fa(&get_random_email(), login_attempt_id.as_str(), "1234");
    assert_eq!(result.unwrap_err().status_code(), 400);
}

#[test]
fn verify_2fa_should_return_401_if_incorrect_credentials() {
    let mut app = TestApp::new();
    let email = get_random_email();
    let login_attempt_id = LoginAttemptId::default();
    let two_fa_code = TwoFACode::default();
    let result = app.verify_2fa(&email, login_attempt_id.as_str(), two_fa_code.as_str());
    assert_eq!(result.unwrap_err().status_code(), 401);
}

#[test]
fn wrong_code_leaves_the_challenge_for_a_second_try() {
    let mut app = TestApp::new();
    let (email, id, code) = two_factor_login(&mut app);
    let wrong = if code.as_str() == "123456" { "654321" } else { "123456" };
    assert_eq!(
        app.verify_2fa(email.as_str(), id.as_str(), wrong),
        Err(AuthAPIError::IncorrectCredentials)
    );
    let other_id = LoginAttemptId::default();
    assert_eq!(
        app.verify_2fa(email.as_str(), other_id.as_str(), code.as_str()),
        Err(AuthAPIError::IncorrectCredentials)
    );
    assert!(app
        .verify_2fa(email.as_str(), id.as_str(), code.as_str())
        .is_ok());
}

#[test]
fn should_return_401_if_old_code() {
    let mut app = TestApp::new();
    let (email, id, code) = two_factor_login(&mut app);
    let token = app
        .verify_2fa(email.as_str(), id.as_str(), code.as_str())
        .expect("No auth cookie found");
    assert!(!token.is_empty());
    let replay = app.verify_2fa(email.as_str(), id.as_str(), code.as_str());
    assert_eq!(replay.unwrap_err().status_code(), 401);
}

#[test]
fn a_second_login_replaces_the_challenge() {
    let mut app = TestApp::new();
    let (email, old_id, old_code) = two_factor_login(&mut app);
    assert_eq!(status(&app.login(email.as_str(), "Password123!")), 206);
    let (new_id, new_code) = app.codes.get_code(&email).unwrap();
    if old_id != new_id || old_code != new_code {
        assert_eq!(
            app.verify_2fa(email.as_str(), old_id.as_str(), old_code.as_str()),
            Err(AuthAPIError::IncorrectCredentials)
        );
    }
    assert!(app
        .verify_2fa(email.as_str(), new_id.as_str(), new_code.as_str())
        .is_ok());
}

fn login_token(app: &mut TestApp, email: &str) -> String {
    assert_eq!(app.signup(email, "Password123!", false), Ok(201));
    match app.login(email, "Password123!").unwrap() {
        LoginOutcome::Authenticated(token) => token,
        LoginOutcome::AwaitingSecondFactor(_, _) => panic!("No auth cookie found"),
    }
}

#[test]
fn should_return_200_valid_token() {
    let mut app = TestApp::new();
    let token = login_token(&mut app, &get_random_email());
    assert_eq!(app.verify_token(&token), 200);
}

#[test]
fn should_return_401_if_invalid_token() {
    let app = TestApp::new();
    assert_eq!(app.verify_token("invalid_token"), 401);
}

#[test]
fn should_return_401_if_banned_token() {
    let mut app = TestApp::new();
    let token = login_token(&mut app, &get_random_email());
    assert_eq!(app.verify_token(&token), 200);
    assert_eq!(app.logout(Some(&token)), 200);
    assert_eq!(app.verify_token(&token), 401);
}

#[test]
fn signup_login_verify_logout_scenario() {
    let mut app = TestApp::new();
    assert_eq!(app.signup("a@b.com", "Password123!", false), Ok(201));
    let response = app.login("a@b.com", "Password123!");
    assert_eq!(status(&response), 200);
    let token = match response.unwrap() {
        LoginOutcome::Authenticated(token) => token,
        LoginOutcome::AwaitingSecondFactor(_, _) => panic!("No auth cookie found"),
    };
    assert_eq!(app.verify_token(&token), 200);
    assert_eq!(app.logout(Some(&token)), 200);
    assert_eq!(app.verify_token(&token), 401);
}

#[test]
fn logout_needs_a_valid_token() {
    let mut app = TestApp::new();
    assert_eq!(app.logout(None), 400);
    assert_eq!(app.logout(Some("invalid_token")), 401);
    let token = login_token(&mut app, "a@b.com");
    assert_eq!(app.logout(Some(&token)), 200);
    assert_eq!(app.logout(Some(&token)), 401);
}

#[test]
fn issued_challenge_is_stored_and_reported() {
    let mut codes = HashmapTwoFACodeStore::new();
    let email = Email::parse("a@b.com").unwrap();
    let id = LoginAttemptId::parse("550e8400-e29b-41d4-a716-446655440000").unwrap();
    let code = TwoFACode::parse("654321").unwrap();
    let outcome = issue_challenge(&mut codes, email.clone(), id.clone(), code.clone()).unwrap();
    assert_eq!(outcome.status_code(), 206);
    match outcome.response() {
        LoginResponse::TwoFactorAuth(body) => {
            assert_eq!(body.message, "2FA required");
            assert_eq!(body.login_attempt_id, "550e8400-e29b-41d4-a716-446655440000");
        }
        LoginResponse::RegularAuth => panic!("expected a second-factor response"),
    }
    assert_eq!(codes.get_code(&email), Ok((id, code)));
}

#[test]
fn signup_result_maps_store_answers() {
    assert_eq!(
        signup_result(Ok(())).unwrap().message,
        "User created successfully!"
    );
    assert_eq!(
        signup_result(Err(UserStoreError::UserAlreadyExists)),
        Err(AuthAPIError::UserAlreadyExists)
    );
    assert_eq!(
        signup_result(Err(UserStoreError::UnexpectedError)),
        Err(AuthAPIError::UnexpectedError)
    );
}

fn stored_user(requires_2fa: bool) -> User {
    User::new(Email::parse("a@b.com").unwrap(), "hash".to_string(), requires_2fa)
}

#[test]
fn password_stage_maps_store_answers() {
    assert_eq!(password_stage(Ok(()), Ok(stored_user(true))), Ok(true));
    assert_eq!(password_stage(Ok(()), Ok(stored_user(false))), Ok(false));
    assert_eq!(
        password_stage(Err(UserStoreError::UserNotFound), Err(UserStoreError::UserNotFound)),
        Err(AuthAPIError::IncorrectCredentials)
    );
    assert_eq!(
        password_stage(Err(UserStoreError::InvalidCredentials), Ok(stored_user(false))),
        Err(AuthAPIError::IncorrectCredentials)
    );
    assert_eq!(
        password_stage(Err(UserStoreError::UnexpectedError), Ok(stored_user(false))),
        Err(AuthAPIError::UnexpectedError)
    );
    assert_eq!(
        password_stage(Ok(()), Err(UserStoreError::UnexpectedError)),
        Err(AuthAPIError::UnexpectedError)
    );
}

#[test]
fn user_check_maps_store_answers() {
    assert_eq!(user_check(Ok(stored_user(true))), Ok(()));
    assert_eq!(
        user_check(Err(UserStoreError::UserNotFound)),
        Err(AuthAPIError::IncorrectCredentials)
    );
    assert_eq!(
        user_check(Err(UserStoreError::UnexpectedError)),
        Err(AuthAPIError::UnexpectedError)
    );
}

#[test]
fn challenge_check_maps_store_answers() {
    let id = LoginAttemptId::parse("550e8400-e29b-41d4-a716-446655440000").unwrap();
    let other_id = LoginAttemptId::parse("550e8400-e29b-41d4-a716-446655440001").unwrap();
    let code = TwoFACode::parse("123456").unwrap();
    let other_code = TwoFACode::parse("654321").unwrap();
    assert_eq!(challenge_check(Ok((id.clone(), code.clone())), &id, &code), Ok(()));
    assert_eq!(
        challenge_check(Ok((id.clone(), other_code)), &id, &code),
        Err(AuthAPIError::IncorrectCredentials)
    );
    assert_eq!(
        challenge_check(Ok((other_id, code.clone())), &id, &code),
        Err(AuthAPIError::IncorrectCredentials)
    );
    assert_eq!(
        challenge_check(Err(TwoFACodeStoreError::LoginAttemptIdNotFound), &id, &code),
        Err(AuthAPIError::IncorrectCredentials)
    );
    assert_eq!(
        challenge_check(Err(TwoFACodeStoreError::UnexpectedError), &id, &code),
        Err(AuthAPIError::UnexpectedError)
    );
}

#[test]
fn store_answers_after_the_decision_are_passed_on() {
    let id = LoginAttemptId::parse("550e8400-e29b-41d4-a716-446655440000").unwrap();
    let code = TwoFACode::parse("123456").unwrap();
    match challenge_result(Ok(()), id.clone(), code.clone()) {
        Ok(LoginOutcome::AwaitingSecondFactor(i, c)) => {
            assert_eq!(i, id);
            assert_eq!(c, code);
        }
        _ => panic!("expected the challenge"),
    }
    assert!(matches!(
        challenge_result(Err(TwoFACodeStoreError::UnexpectedError), id, code),
        Err(AuthAPIError::UnexpectedError)
    ));
    assert_eq!(consume_result(Ok(()), "t".to_string()), Ok("t".to_string()));
    assert_eq!(
        consume_result(Err(TwoFACodeStoreError::LoginAttemptIdNotFound), "t".to_string()),
        Err(AuthAPIError::UnexpectedError)
    );
    assert_eq!(revocation_result(Ok(())), Ok(()));
    assert_eq!(
        revocation_result(Err(BannedTokenStoreError::UnexpectedError)),
        Err(AuthAPIError::UnexpectedError)
    );
}

#[test]
fn login_in_two_stages() {
    let mut app = TestApp::new();
    assert_eq!(app.signup("a@b.com", "Password123!", true), Ok(201));
    let request = LoginRequest {
        email: "a@b.com".to_string(),
        password: "Password123!".to_string(),
    };
    let (email, requires_2fa) = check_login(&app.users, &request).unwrap();
    assert!(requires_2fa);
    assert_eq!(email.as_str(), "a@b.com");
    let outcome = finish_login(&mut app.codes, &app.tokens, email.clone(), requires_2fa, NOW).unwrap();
    assert_eq!(outcome.status_code(), 206);
    assert!(app.codes.get_code(&email).is_ok());
    let wrong = LoginRequest {
        email: "a@b.com".to_string(),
        password: "Password124!".to_string(),
    };
    assert!(matches!(
        check_login(&app.users, &wrong),
        Err(AuthAPIError::IncorrectCredentials)
    ));
}

#[test]
fn revoking_twice_answers_ok_both_times() {
    let mut app = TestApp::new();
    let token = login_token(&mut app, "a@b.com");
    let tokens = TokenService::new("secret".to_string());
    assert!(tokens.validate(&token, &app.banned, NOW + 1).is_ok());
    assert_eq!(revocation_result(app.banned.add_token(token.clone())), Ok(()));
    assert_eq!(revocation_result(app.banned.add_token(token.clone())), Ok(()));
    assert_eq!(app.banned.contains_token(&token), Ok(true));
}
