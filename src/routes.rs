//! The authentication operations, written against the store contracts so
//! that any backend can serve them. Each operation checks the shape of its
//! input before any store is touched.
use vstd::prelude::*;

use crate::api_error::AuthAPIError;
use crate::data_stores::{
    challenge_result_view, user_result_view, uuid_text_accepted, valid_two_fa_code,
    BannedTokenStore, BannedTokenStoreError, Challenge, LoginAttemptId, TwoFACode,
    TwoFACodeStore, TwoFACodeStoreError,
    User, UserRecord, UserStore, UserStoreError,
};
use crate::email::{email_address_accepted, Email};
use crate::password::{compute_password_hash, password_matches_hash, valid_password, Password};
use crate::token::{accepted_claims, Claims, TokenService};

verus! {

pub struct SignupRequest {
    pub email: String,
    pub password: String,
    pub requires_2fa: bool,
}

#[derive(Debug, PartialEq)]
pub struct SignupResponse {
    pub message: String,
}

pub struct LoginRequest {
    pub email: String,
    pub password: String,
}

#[derive(Debug, PartialEq)]
pub struct TwoFactorAuthResponse {
    pub message: String,
    pub login_attempt_id: String,
}

/// The body of a successful login.
#[derive(Debug, PartialEq)]
pub enum LoginResponse {
    RegularAuth,
    TwoFactorAuth(TwoFactorAuthResponse),
}

pub struct Verify2FARequest {
    pub email: String,
    pub login_attempt_id: String,
    pub two_fa_code: String,
}

pub struct VerifyTokenRequest {
    pub token: String,
}

/// Where a login that passed the password check ends.
pub enum LoginOutcome {
    /// Logged in; the new session token.
    Authenticated(String),
    /// A second factor is due; the challenge that was stored. The code is
    /// for the notification channel, never for the caller.
    AwaitingSecondFactor(LoginAttemptId, TwoFACode),
}

/// Both credentials have the required shape.
pub open spec fn credentials_well_formed(email: Seq<char>, password: Seq<char>) -> bool {
    email_address_accepted(email) && valid_password(password)
}

/// `email` is registered and `password` matches its stored hash.
pub open spec fn password_accepted(
    users: Map<Seq<char>, UserRecord>,
    email: Seq<char>,
    password: Seq<char>,
) -> bool {
    users.contains_key(email) && password_matches_hash(users[email].password_hash, password)
}

/// `after` is `before` with a new user under `email` whose stored hash
/// matches `password`.
pub open spec fn signed_up(
    before: Map<Seq<char>, UserRecord>,
    email: Seq<char>,
    password: Seq<char>,
    requires_2fa: bool,
    after: Map<Seq<char>, UserRecord>,
) -> bool {
    &&& !before.contains_key(email)
    &&& after.contains_key(email)
    &&& after == before.insert(email, after[email])
    &&& after[email].email == email
    &&& after[email].requires_2fa == requires_2fa
    &&& password_matches_hash(after[email].password_hash, password)
}

/// Registers a user. Malformed credentials are rejected before the store
/// is touched; no token is issued.
pub fn signup<U: UserStore>(users: &mut U, request: SignupRequest) -> (r: Result<
    SignupResponse,
    AuthAPIError,
>)
    ensures
        !credentials_well_formed(request.email@, request.password@) <==> r == Err::<
            SignupResponse,
            AuthAPIError,
        >(AuthAPIError::InvalidCredentials),
        match r {
            Ok(response) => response.message@ == "User created successfully!"@ && signed_up(
                old(users).users(),
                request.email@,
                request.password@,
                request.requires_2fa,
                final(users).users(),
            ),
            Err(AuthAPIError::InvalidCredentials) => final(users).users() == old(users).users(),
            Err(AuthAPIError::UserAlreadyExists) => old(users).users().contains_key(request.email@)
                && final(users).users() == old(users).users(),
            Err(AuthAPIError::UnexpectedError) => final(users).users() == old(users).users()
                || signed_up(
                old(users).users(),
                request.email@,
                request.password@,
                request.requires_2fa,
                final(users).users(),
            ),
            Err(_) => false,
        },
        credentials_well_formed(request.email@, request.password@) && old(
            users,
        ).users().contains_key(request.email@) ==> r is Err,
{
    let email = match Email::parse(request.email.as_str()) {
        Ok(email) => email,
        Err(_) => return Err(AuthAPIError::InvalidCredentials),
    };
    let password = match Password::parse(request.password.as_str()) {
        Ok(password) => password,
        Err(_) => return Err(AuthAPIError::InvalidCredentials),
    };
    let password_hash = match compute_password_hash(&password) {
        Ok(h) => h,
        Err(_) => return Err(AuthAPIError::UnexpectedError),
    };
    let user = User::new(email, password_hash, request.requires_2fa);
    let added = users.add_user(user);
    signup_result(added)
}

/// What signup answers for the user store's answer to `add_user`.
pub fn signup_result(added: Result<(), UserStoreError>) -> (r: Result<SignupResponse, AuthAPIError>)
    ensures
        match added {
            Ok(()) => r matches Ok(response) && response.message@
                == "User created successfully!"@,
            Err(UserStoreError::UserAlreadyExists) => r == Err::<SignupResponse, AuthAPIError>(
                AuthAPIError::UserAlreadyExists,
            ),
            Err(_) => r == Err::<SignupResponse, AuthAPIError>(AuthAPIError::UnexpectedError),
        },
{
    match added {
        Ok(()) => Ok(SignupResponse { message: "User created successfully!".to_string() }),
        Err(UserStoreError::UserAlreadyExists) => Err(AuthAPIError::UserAlreadyExists),
        Err(_) => Err(AuthAPIError::UnexpectedError),
    }
}

/// The challenge stored for `email` is exactly `(id, code)`.
pub open spec fn challenge_matches(
    codes: Map<Seq<char>, Challenge>,
    email: Seq<char>,
    id: Seq<char>,
    code: Seq<char>,
) -> bool {
    codes.contains_key(email) && codes[email] == (id, code)
}

/// Checks a password login. Without a second factor it issues a session
/// token; with one it stores a fresh challenge for the address. A missing
/// user and a wrong password give the same error.
pub fn login<U: UserStore, T: TwoFACodeStore>(
    users: &U,
    codes: &mut T,
    tokens: &TokenService,
    request: LoginRequest,
    now: u64,
) -> (r: Result<LoginOutcome, AuthAPIError>)
    ensures
        !credentials_well_formed(request.email@, request.password@) <==> r matches Err(
            AuthAPIError::InvalidCredentials,
        ),
        match r {
            Ok(LoginOutcome::Authenticated(token)) => {
                &&& credentials_well_formed(request.email@, request.password@)
                &&& password_accepted(users.users(), request.email@, request.password@)
                &&& !users.users()[request.email@].requires_2fa
                &&& tokens.issued_token(request.email@, now, token@)
                &&& final(codes).codes() == old(codes).codes()
            },
            Ok(LoginOutcome::AwaitingSecondFactor(id, code)) => {
                &&& credentials_well_formed(request.email@, request.password@)
                &&& password_accepted(users.users(), request.email@, request.password@)
                &&& users.users()[request.email@].requires_2fa
                &&& uuid_text_accepted(id@)
                &&& valid_two_fa_code(code@)
                &&& final(codes).codes() == old(codes).codes().insert(
                    request.email@,
                    (id@, code@),
                )
            },
            Err(AuthAPIError::InvalidCredentials) => final(codes).codes() == old(codes).codes(),
            Err(AuthAPIError::IncorrectCredentials) => {
                &&& credentials_well_formed(request.email@, request.password@)
                &&& !password_accepted(users.users(), request.email@, request.password@)
                &&& final(codes).codes() == old(codes).codes()
            },
            Err(AuthAPIError::UnexpectedError) => {
                ||| final(codes).codes() == old(codes).codes()
                ||| {
                    &&& credentials_well_formed(request.email@, request.password@)
                    &&& password_accepted(users.users(), request.email@, request.password@)
                    &&& users.users()[request.email@].requires_2fa
                    &&& final(codes).codes().contains_key(request.email@)
                    &&& final(codes).codes() == old(codes).codes().insert(
                        request.email@,
                        final(codes).codes()[request.email@],
                    )
                }
            },
            Err(_) => false,
        },
        credentials_well_formed(request.email@, request.password@) && !password_accepted(
            users.users(),
            request.email@,
            request.password@,
        ) ==> r is Err,
{
    let (email, requires_2fa) = match check_login(users, &request) {
        Ok(checked) => checked,
        Err(e) => return Err(e),
    };
    finish_login(codes, tokens, email, requires_2fa, now)
}

/// The password stage of a login, which reads only the user store: the
/// parsed address and whether a second factor is due, or the error.
pub fn check_login<U: UserStore>(users: &U, request: &LoginRequest) -> (r: Result<
    (Email, bool),
    AuthAPIError,
>)
    ensures
        !credentials_well_formed(request.email@, request.password@) <==> r matches Err(
            AuthAPIError::InvalidCredentials,
        ),
        match r {
            Ok((email, requires_2fa)) => {
                &&& credentials_well_formed(request.email@, request.password@)
                &&& email@ == request.email@
                &&& password_accepted(users.users(), request.email@, request.password@)
                &&& requires_2fa == users.users()[request.email@].requires_2fa
            },
            Err(AuthAPIError::InvalidCredentials) => true,
            Err(AuthAPIError::IncorrectCredentials) => {
                &&& credentials_well_formed(request.email@, request.password@)
                &&& !password_accepted(users.users(), request.email@, request.password@)
            },
            Err(AuthAPIError::UnexpectedError) => credentials_well_formed(
                request.email@,
                request.password@,
            ),
            Err(_) => false,
        },
        credentials_well_formed(request.email@, request.password@) && !password_accepted(
            users.users(),
            request.email@,
            request.password@,
        ) ==> r is Err,
{
    let email = match Email::parse(request.email.as_str()) {
        Ok(email) => email,
        Err(_) => return Err(AuthAPIError::InvalidCredentials),
    };
    let password = match Password::parse(request.password.as_str()) {
        Ok(password) => password,
        Err(_) => return Err(AuthAPIError::InvalidCredentials),
    };
    let validated = users.validate_user(&email, &password);
    let user = users.get_user(&email);
    match password_stage(validated, user) {
        Ok(requires_2fa) => Ok((email, requires_2fa)),
        Err(e) => Err(e),
    }
}

/// The second stage of a login that passed the password check, which
/// touches only the challenge store: a fresh challenge when a second factor
/// is due, a session token otherwise.
pub fn finish_login<T: TwoFACodeStore>(
    codes: &mut T,
    tokens: &TokenService,
    email: Email,
    requires_2fa: bool,
    now: u64,
) -> (r: Result<LoginOutcome, AuthAPIError>)
    ensures
        match r {
            Ok(LoginOutcome::Authenticated(token)) => {
                &&& !requires_2fa
                &&& tokens.issued_token(email@, now, token@)
                &&& final(codes).codes() == old(codes).codes()
            },
            Ok(LoginOutcome::AwaitingSecondFactor(id, code)) => {
                &&& requires_2fa
                &&& uuid_text_accepted(id@)
                &&& valid_two_fa_code(code@)
                &&& final(codes).codes() == old(codes).codes().insert(email@, (id@, code@))
            },
            Err(e) => {
                &&& e == AuthAPIError::UnexpectedError
                &&& {
                    ||| final(codes).codes() == old(codes).codes()
                    ||| {
                        &&& requires_2fa
                        &&& final(codes).codes().contains_key(email@)
                        &&& final(codes).codes() == old(codes).codes().insert(
                            email@,
                            final(codes).codes()[email@],
                        )
                    }
                }
            },
        },
        !requires_2fa ==> (r is Ok <==> tokens.expiry_for(now) <= u64::MAX),
{
    if requires_2fa {
        issue_challenge(codes, email, LoginAttemptId::default(), TwoFACode::default())
    } else {
        match tokens.issue(&email, now) {
            Ok(token) => Ok(LoginOutcome::Authenticated(token)),
            Err(_) => Err(AuthAPIError::UnexpectedError),
        }
    }
}

/// What the password stage of a login concludes from the user store's
/// answers: whether a second factor is due, or the error to report. A
/// missing user and a wrong password give the same error.
pub open spec fn password_stage_result(
    validated: Result<(), UserStoreError>,
    user: Result<UserRecord, UserStoreError>,
) -> Result<bool, AuthAPIError> {
    match validated {
        Err(UserStoreError::UserNotFound) => Err(AuthAPIError::IncorrectCredentials),
        Err(UserStoreError::InvalidCredentials) => Err(AuthAPIError::IncorrectCredentials),
        Err(_) => Err(AuthAPIError::UnexpectedError),
        Ok(()) => match user {
            Ok(u) => Ok(u.requires_2fa),
            Err(_) => Err(AuthAPIError::UnexpectedError),
        },
    }
}

/// Maps the answers of `validate_user` and `get_user` to the next step of
/// a login.
pub fn password_stage(
    validated: Result<(), UserStoreError>,
    user: Result<User, UserStoreError>,
) -> (r: Result<bool, AuthAPIError>)
    ensures
        r == password_stage_result(validated, user_result_view(user)),
{
    match validated {
        Err(UserStoreError::UserNotFound) => Err(AuthAPIError::IncorrectCredentials),
        Err(UserStoreError::InvalidCredentials) => Err(AuthAPIError::IncorrectCredentials),
        Err(_) => Err(AuthAPIError::UnexpectedError),
        Ok(()) => match user {
            Ok(u) => Ok(u.requires_2fa),
            Err(_) => Err(AuthAPIError::UnexpectedError),
        },
    }
}

/// Stores the challenge `(login_attempt_id, code)` for `email`, replacing
/// any earlier one, and reports that a second factor is due.
pub fn issue_challenge<T: TwoFACodeStore>(
    codes: &mut T,
    email: Email,
    login_attempt_id: LoginAttemptId,
    code: TwoFACode,
) -> (r: Result<LoginOutcome, AuthAPIError>)
    ensures
        match r {
            Ok(LoginOutcome::AwaitingSecondFactor(id, c)) => {
                &&& id@ == login_attempt_id@
                &&& c@ == code@
                &&& final(codes).codes() == old(codes).codes().insert(
                    email@,
                    (login_attempt_id@, code@),
                )
            },
            Ok(LoginOutcome::Authenticated(_)) => false,
            Err(e) => e == AuthAPIError::UnexpectedError && (final(codes).codes() == old(
                codes,
            ).codes() || final(codes).codes() == old(codes).codes().insert(
                email@,
                (login_attempt_id@, code@),
            )),
        },
{
    let added = codes.add_code(email, login_attempt_id.clone(), code.clone());
    challenge_result(added, login_attempt_id, code)
}

/// What the challenge step answers for the challenge store's answer to
/// `add_code`: the challenge on success, `UnexpectedError` on failure.
pub fn challenge_result(
    added: Result<(), TwoFACodeStoreError>,
    login_attempt_id: LoginAttemptId,
    code: TwoFACode,
) -> (r: Result<LoginOutcome, AuthAPIError>)
    ensures
        added is Ok ==> (r matches Ok(LoginOutcome::AwaitingSecondFactor(i, c)) && i@
            == login_attempt_id@ && c@ == code@),
        added is Err ==> r == Err::<LoginOutcome, AuthAPIError>(AuthAPIError::UnexpectedError),
{
    match added {
        Ok(()) => Ok(LoginOutcome::AwaitingSecondFactor(login_attempt_id, code)),
        Err(_) => Err(AuthAPIError::UnexpectedError),
    }
}

impl LoginOutcome {
    /// 200 when logged in, 206 when a second factor is due.
    pub fn status_code(&self) -> (r: u16)
        ensures
            r == (if self is Authenticated {
                200u16
            } else {
                206u16
            }),
    {
        match self {
            LoginOutcome::Authenticated(_) => 200,
            LoginOutcome::AwaitingSecondFactor(_, _) => 206,
        }
    }

    /// The body for the caller: the attempt id when a second factor is due,
    /// never the code.
    pub fn response(&self) -> (r: LoginResponse)
        ensures
            match self {
                LoginOutcome::Authenticated(_) => r is RegularAuth,
                LoginOutcome::AwaitingSecondFactor(id, _) => r matches LoginResponse::TwoFactorAuth(
                    body,
                ) && body.message@ == "2FA required"@ && body.login_attempt_id@ == id@,
            },
    {
        match self {
            LoginOutcome::Authenticated(_) => LoginResponse::RegularAuth,
            LoginOutcome::AwaitingSecondFactor(id, _) => LoginResponse::TwoFactorAuth(
                TwoFactorAuthResponse {
                    message: "2FA required".to_string(),
                    login_attempt_id: id.to_string(),
                },
            ),
        }
    }
}

/// The three inputs of a second-factor check have the required shape.
pub open spec fn second_factor_well_formed(email: Seq<char>, id: Seq<char>, code: Seq<char>) -> bool {
    email_address_accepted(email) && uuid_text_accepted(id) && valid_two_fa_code(code)
}

/// Completes a login with its second factor. On an exact match of the
/// stored challenge it consumes the challenge and issues a session token;
/// a missing user, a missing challenge and a mismatch all give the same
/// error and leave the challenge in place.
pub fn verify_2fa<U: UserStore, T: TwoFACodeStore>(
    users: &U,
    codes: &mut T,
    tokens: &TokenService,
    request: Verify2FARequest,
    now: u64,
) -> (r: Result<String, AuthAPIError>)
    ensures
        !second_factor_well_formed(
            request.email@,
            request.login_attempt_id@,
            request.two_fa_code@,
        ) <==> r matches Err(AuthAPIError::InvalidCredentials),
        match r {
            Ok(token) => {
                &&& second_factor_well_formed(
                    request.email@,
                    request.login_attempt_id@,
                    request.two_fa_code@,
                )
                &&& users.users().contains_key(request.email@)
                &&& challenge_matches(
                    old(codes).codes(),
                    request.email@,
                    request.login_attempt_id@,
                    request.two_fa_code@,
                )
                &&& final(codes).codes() == old(codes).codes().remove(request.email@)
                &&& tokens.issued_token(request.email@, now, token@)
            },
            Err(AuthAPIError::InvalidCredentials) => final(codes).codes() == old(codes).codes(),
            Err(AuthAPIError::IncorrectCredentials) => {
                &&& second_factor_well_formed(
                    request.email@,
                    request.login_attempt_id@,
                    request.two_fa_code@,
                )
                &&& (!users.users().contains_key(request.email@) || !challenge_matches(
                    old(codes).codes(),
                    request.email@,
                    request.login_attempt_id@,
                    request.two_fa_code@,
                ))
                &&& final(codes).codes() == old(codes).codes()
            },
            Err(AuthAPIError::UnexpectedError) => {
                ||| final(codes).codes() == old(codes).codes()
                ||| {
                    &&& challenge_matches(
                        old(codes).codes(),
                        request.email@,
                        request.login_attempt_id@,
                        request.two_fa_code@,
                    )
                    &&& final(codes).codes() == old(codes).codes().remove(request.email@)
                }
            },
            Err(_) => false,
        },
        (!users.users().contains_key(request.email@) || !challenge_matches(
            old(codes).codes(),
            request.email@,
            request.login_attempt_id@,
            request.two_fa_code@,
        )) ==> r is Err,
{
    let (email, login_attempt_id, two_fa_code) = match check_second_factor_user(users, &request) {
        Ok(checked) => checked,
        Err(e) => return Err(e),
    };
    finish_second_factor(codes, tokens, email, login_attempt_id, two_fa_code, now)
}

/// The first stage of a second-factor check, which reads only the user
/// store: the parsed inputs once the address is known to be registered.
pub fn check_second_factor_user<U: UserStore>(users: &U, request: &Verify2FARequest) -> (r: Result<
    (Email, LoginAttemptId, TwoFACode),
    AuthAPIError,
>)
    ensures
        !second_factor_well_formed(
            request.email@,
            request.login_attempt_id@,
            request.two_fa_code@,
        ) <==> r matches Err(AuthAPIError::InvalidCredentials),
        match r {
            Ok((email, id, code)) => {
                &&& second_factor_well_formed(
                    request.email@,
                    request.login_attempt_id@,
                    request.two_fa_code@,
                )
                &&& email@ == request.email@
                &&& id@ == request.login_attempt_id@
                &&& code@ == request.two_fa_code@
                &&& users.users().contains_key(request.email@)
            },
            Err(AuthAPIError::InvalidCredentials) => true,
            Err(AuthAPIError::IncorrectCredentials) => {
                &&& second_factor_well_formed(
                    request.email@,
                    request.login_attempt_id@,
                    request.two_fa_code@,
                )
                &&& !users.users().contains_key(request.email@)
            },
            Err(AuthAPIError::UnexpectedError) => second_factor_well_formed(
                request.email@,
                request.login_attempt_id@,
                request.two_fa_code@,
            ),
            Err(_) => false,
        },
        !users.users().contains_key(request.email@) ==> r is Err,
{
    let email = Email::parse(request.email.as_str());
    let login_attempt_id = LoginAttemptId::parse(request.login_attempt_id.as_str());
    let two_fa_code = TwoFACode::parse(request.two_fa_code.as_str());
    let (email, login_attempt_id, two_fa_code) = match (email, login_attempt_id, two_fa_code) {
        (Ok(email), Ok(id), Ok(code)) => (email, id, code),
        _ => return Err(AuthAPIError::InvalidCredentials),
    };
    let user = users.get_user(&email);
    match user_check(user) {
        Ok(()) => Ok((email, login_attempt_id, two_fa_code)),
        Err(e) => Err(e),
    }
}

/// The second stage of a second-factor check, which touches only the
/// challenge store: on an exact match it issues a session token and
/// consumes the challenge.
pub fn finish_second_factor<T: TwoFACodeStore>(
    codes: &mut T,
    tokens: &TokenService,
    email: Email,
    login_attempt_id: LoginAttemptId,
    two_fa_code: TwoFACode,
    now: u64,
) -> (r: Result<String, AuthAPIError>)
    ensures
        match r {
            Ok(token) => {
                &&& challenge_matches(old(codes).codes(), email@, login_attempt_id@, two_fa_code@)
                &&& final(codes).codes() == old(codes).codes().remove(email@)
                &&& tokens.issued_token(email@, now, token@)
            },
            Err(AuthAPIError::IncorrectCredentials) => {
                &&& !challenge_matches(
                    old(codes).codes(),
                    email@,
                    login_attempt_id@,
                    two_fa_code@,
                )
                &&& final(codes).codes() == old(codes).codes()
            },
            Err(AuthAPIError::UnexpectedError) => {
                ||| final(codes).codes() == old(codes).codes()
                ||| {
                    &&& challenge_matches(
                        old(codes).codes(),
                        email@,
                        login_attempt_id@,
                        two_fa_code@,
                    )
                    &&& final(codes).codes() == old(codes).codes().remove(email@)
                }
            },
            Err(_) => false,
        },
        !challenge_matches(old(codes).codes(), email@, login_attempt_id@, two_fa_code@) ==> r is Err,
{
    let stored = codes.get_code(&email);
    match challenge_check(stored, &login_attempt_id, &two_fa_code) {
        Ok(()) => {},
        Err(e) => return Err(e),
    }
    let token = match tokens.issue(&email, now) {
        Ok(token) => token,
        Err(_) => return Err(AuthAPIError::UnexpectedError),
    };
    let removed = codes.remove_code(&email);
    consume_result(removed, token)
}

/// What a matched second factor answers for the challenge store's answer
/// to `remove_code`: the session token once the challenge is consumed,
/// `UnexpectedError` otherwise.
pub fn consume_result(removed: Result<(), TwoFACodeStoreError>, token: String) -> (r: Result<
    String,
    AuthAPIError,
>)
    ensures
        removed is Ok ==> (r matches Ok(t) && t@ == token@),
        removed is Err ==> r == Err::<String, AuthAPIError>(AuthAPIError::UnexpectedError),
{
    match removed {
        Ok(()) => Ok(token),
        Err(_) => Err(AuthAPIError::UnexpectedError),
    }
}

/// What a second-factor check concludes from the user store's answer:
/// an unknown address gives the same error as a wrong code.
pub open spec fn user_check_result(user: Result<UserRecord, UserStoreError>) -> Result<
    (),
    AuthAPIError,
> {
    match user {
        Ok(_) => Ok(()),
        Err(UserStoreError::UserNotFound) => Err(AuthAPIError::IncorrectCredentials),
        Err(_) => Err(AuthAPIError::UnexpectedError),
    }
}

/// Maps the user store's answer to `get_user` in a second-factor check.
pub fn user_check(user: Result<User, UserStoreError>) -> (r: Result<(), AuthAPIError>)
    ensures
        r == user_check_result(user_result_view(user)),
{
    match user {
        Ok(_) => Ok(()),
        Err(UserStoreError::UserNotFound) => Err(AuthAPIError::IncorrectCredentials),
        Err(_) => Err(AuthAPIError::UnexpectedError),
    }
}

/// What a second-factor check concludes from the challenge store's answer
/// and the submitted `(id, code)`: a missing challenge and a mismatch give
/// the same error.
pub open spec fn challenge_check_result(
    stored: Result<Challenge, TwoFACodeStoreError>,
    id: Seq<char>,
    code: Seq<char>,
) -> Result<(), AuthAPIError> {
    match stored {
        Err(TwoFACodeStoreError::LoginAttemptIdNotFound) => Err(AuthAPIError::IncorrectCredentials),
        Err(_) => Err(AuthAPIError::UnexpectedError),
        Ok(c) => if c == (id, code) {
            Ok(())
        } else {
            Err(AuthAPIError::IncorrectCredentials)
        },
    }
}

/// Compares the stored challenge with the submitted one, given the
/// challenge store's answer to `get_code`.
pub fn challenge_check(
    stored: Result<(LoginAttemptId, TwoFACode), TwoFACodeStoreError>,
    id: &LoginAttemptId,
    code: &TwoFACode,
) -> (r: Result<(), AuthAPIError>)
    ensures
        r == challenge_check_result(challenge_result_view(stored), id@, code@),
{
    match stored {
        Err(TwoFACodeStoreError::LoginAttemptIdNotFound) => Err(AuthAPIError::IncorrectCredentials),
        Err(_) => Err(AuthAPIError::UnexpectedError),
        Ok((stored_id, stored_code)) => {
            if stored_id.same_as(id) && stored_code.same_as(code) {
                Ok(())
            } else {
                Err(AuthAPIError::IncorrectCredentials)
            }
        },
    }
}

/// Checks a session token: signature, expiry and revocation.
pub fn verify_token<B: BannedTokenStore>(
    banned: &B,
    tokens: &TokenService,
    request: VerifyTokenRequest,
    now: u64,
) -> (r: Result<Claims, AuthAPIError>)
    ensures
        match r {
            Ok(c) => accepted_claims(
                request.token@,
                tokens.jwt_secret@,
                now,
                banned.banned().contains(request.token@),
            ) == Some((c.sub@, c.exp)),
            Err(e) => e == AuthAPIError::InvalidToken,
        },
        accepted_claims(
            request.token@,
            tokens.jwt_secret@,
            now,
            banned.banned().contains(request.token@),
        ) is None ==> r is Err,
{
    tokens.validate(request.token.as_str(), banned, now)
}

/// Ends a session: the token must be present and valid, and is then
/// revoked. A missing or invalid token fails before the store changes.
pub fn logout<B: BannedTokenStore>(
    banned: &mut B,
    tokens: &TokenService,
    token: Option<String>,
    now: u64,
) -> (r: Result<(), AuthAPIError>)
    ensures
        token is None <==> r matches Err(AuthAPIError::MissingToken),
        match r {
            Ok(()) => token matches Some(t) && accepted_claims(
                t@,
                tokens.jwt_secret@,
                now,
                old(banned).banned().contains(t@),
            ) is Some && final(banned).banned() == old(banned).banned().insert(t@),
            Err(AuthAPIError::MissingToken) => final(banned).banned() == old(banned).banned(),
            Err(AuthAPIError::InvalidToken) => final(banned).banned() == old(banned).banned(),
            Err(AuthAPIError::UnexpectedError) => token matches Some(t) && (final(banned).banned()
                == old(banned).banned() || final(banned).banned() == old(banned).banned().insert(
                t@,
            )),
            Err(_) => false,
        },
        token matches Some(t) && accepted_claims(
            t@,
            tokens.jwt_secret@,
            now,
            old(banned).banned().contains(t@),
        ) is None ==> r matches Err(AuthAPIError::InvalidToken),
{
    let token = match token {
        Some(token) => token,
        None => return Err(AuthAPIError::MissingToken),
    };
    match tokens.validate(token.as_str(), &*banned, now) {
        Ok(_) => {},
        Err(_) => return Err(AuthAPIError::InvalidToken),
    }
    let added = banned.add_token(token);
    revocation_result(added)
}

/// What logout answers for the revoked-token store's answer to `add_token`.
pub fn revocation_result(added: Result<(), BannedTokenStoreError>) -> (r: Result<(), AuthAPIError>)
    ensures
        added is Ok ==> r is Ok,
        added is Err ==> r == Err::<(), AuthAPIError>(AuthAPIError::UnexpectedError),
{
    match added {
        Ok(()) => Ok(()),
        Err(_) => Err(AuthAPIError::UnexpectedError),
    }
}

} // verus!
