use vstd::prelude::*;

verus! {

/// Why a credential was refused at construction.
#[derive(Debug, Clone, Copy, PartialEq, Eq, Structural)]
pub enum CreateUserError {
    InvalidPassword,
    InvalidEmail,
}

/// How a request can fail. Each kind answers with one status code and one
/// message.
#[derive(Debug, Clone, Copy, PartialEq, Eq, Structural)]
pub enum AuthAPIError {
    UserAlreadyExists,
    InvalidUserCredentials,
    InvalidCredentials,
    UnexpectedError,
    UserNotFound,
    Unauthorized,
    MissingToken,
    InvalidToken,
    MalformedToken,
}

impl AuthAPIError {
    /// The status code that answers a failure of this kind.
    pub open spec fn status(self) -> u16 {
        match self {
            AuthAPIError::UserAlreadyExists => 409,
            AuthAPIError::InvalidUserCredentials => 400,
            AuthAPIError::Unauthorized => 401,
            AuthAPIError::UnexpectedError => 500,
            AuthAPIError::UserNotFound => 422,
            AuthAPIError::InvalidCredentials => 422,
            AuthAPIError::InvalidToken => 401,
            AuthAPIError::MissingToken => 400,
            AuthAPIError::MalformedToken => 422,
        }
    }

    /// The message that answers a failure of this kind. None of them tells
    /// what went wrong inside: an unexpected failure is answered in general
    /// words.
    pub open spec fn message(self) -> Seq<char> {
        match self {
            AuthAPIError::UserAlreadyExists => "User already exists"@,
            AuthAPIError::InvalidUserCredentials => "Invalid credentials"@,
            AuthAPIError::Unauthorized => "unauthorized"@,
            AuthAPIError::UnexpectedError => "Unexpected error"@,
            AuthAPIError::UserNotFound => "bad request"@,
            AuthAPIError::InvalidCredentials => "invalid user credentials"@,
            AuthAPIError::InvalidToken => "Invalid token"@,
            AuthAPIError::MissingToken => "Missing token"@,
            AuthAPIError::MalformedToken => "Malformed token"@,
        }
    }

    pub fn status_code(&self) -> (code: u16)
        ensures
            code == self.status(),
    {
        match self {
            AuthAPIError::UserAlreadyExists => 409,
            AuthAPIError::InvalidUserCredentials => 400,
            AuthAPIError::Unauthorized => 401,
            AuthAPIError::UnexpectedError => 500,
            AuthAPIError::UserNotFound => 422,
            AuthAPIError::InvalidCredentials => 422,
            AuthAPIError::InvalidToken => 401,
            AuthAPIError::MissingToken => 400,
            AuthAPIError::MalformedToken => 422,
        }
    }

    pub fn error_message(&self) -> (text: &'static str)
        ensures
            text@ == self.message(),
    {
        match self {
            AuthAPIError::UserAlreadyExists => "User already exists",
            AuthAPIError::InvalidUserCredentials => "Invalid credentials",
            AuthAPIError::Unauthorized => "unauthorized",
            AuthAPIError::UnexpectedError => "Unexpected error",
            AuthAPIError::UserNotFound => "bad request",
            AuthAPIError::InvalidCredentials => "invalid user credentials",
            AuthAPIError::InvalidToken => "Invalid token",
            AuthAPIError::MissingToken => "Missing token",
            AuthAPIError::MalformedToken => "Malformed token",
        }
    }
}

} // verus!
