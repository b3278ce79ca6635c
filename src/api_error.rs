use vstd::prelude::*;

verus! {

/// The errors that the authentication operations report to their callers.
#[derive(Debug, Clone, Copy, PartialEq, Eq, Structural)]
pub enum AuthAPIError {
    IncorrectCredentials,
    InvalidCredentials,
    InvalidToken,
    MissingToken,
    UserAlreadyExists,
    UnexpectedError,
}

/// The HTTP status that carries each error.
pub open spec fn status_of(e: AuthAPIError) -> u16 {
    match e {
        AuthAPIError::IncorrectCredentials => 401,
        AuthAPIError::InvalidCredentials => 400,
        AuthAPIError::InvalidToken => 401,
        AuthAPIError::MissingToken => 400,
        AuthAPIError::UserAlreadyExists => 409,
        AuthAPIError::UnexpectedError => 500,
    }
}

/// The message that describes each error.
pub open spec fn message_of(e: AuthAPIError) -> Seq<char> {
    match e {
        AuthAPIError::IncorrectCredentials => "Incorrect credentials"@,
        AuthAPIError::InvalidCredentials => "Invalid credentials"@,
        AuthAPIError::InvalidToken => "Invalid token"@,
        AuthAPIError::MissingToken => "Missing token"@,
        AuthAPIError::UserAlreadyExists => "User already exists"@,
        AuthAPIError::UnexpectedError => "Unexpected error"@,
    }
}

/// The body of an error response.
#[derive(Debug, PartialEq)]
pub struct ErrorResponse {
    pub error: String,
}

impl AuthAPIError {
    pub fn status_code(&self) -> (r: u16)
        ensures
            r == status_of(*self),
    {
        match self {
            AuthAPIError::IncorrectCredentials => 401,
            AuthAPIError::InvalidCredentials => 400,
            AuthAPIError::InvalidToken => 401,
            AuthAPIError::MissingToken => 400,
            AuthAPIError::UserAlreadyExists => 409,
            AuthAPIError::UnexpectedError => 500,
        }
    }

    pub fn message(&self) -> (r: String)
        ensures
            r@ == message_of(*self),
    {
        let text = match self {
            AuthAPIError::IncorrectCredentials => "Incorrect credentials",
            AuthAPIError::InvalidCredentials => "Invalid credentials",
            AuthAPIError::InvalidToken => "Invalid token",
            AuthAPIError::MissingToken => "Missing token",
            AuthAPIError::UserAlreadyExists => "User already exists",
            AuthAPIError::UnexpectedError => "Unexpected error",
        };
        text.to_string()
    }

    /// The response body that reports this error.
    pub fn to_error_response(&self) -> (r: ErrorResponse)
        ensures
            r.error@ == message_of(*self),
    {
        ErrorResponse { error: self.message() }
    }
}

} // verus!
