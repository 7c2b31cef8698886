//! The failures that the library reports, and the HTTP status each one maps to.

use vstd::prelude::*;

verus! {

/// Why a token was not accepted.
#[derive(Clone, Copy, Debug, PartialEq, Eq, Structural)]
pub enum TokenError {
    /// The token could not be parsed, its signature does not verify, or its
    /// payload lacks one of the three claims.
    Malformed,
    /// The signature is valid and the expiry time has been reached.
    Expired,
}

/// Why no token was issued.
#[derive(Clone, Copy, Debug, PartialEq, Eq, Structural)]
pub enum IssueError {
    /// The lifetime is zero, or the expiry time would not fit the machine word.
    LifetimeOutOfRange,
    /// The signing backend returned an error.
    Encoding,
}

/// Failures of the credential verifier.
#[derive(Clone, Copy, Debug, PartialEq, Eq, Structural)]
pub enum CredentialError {
    /// The stored hash is unreadable or the password does not match it.
    Mismatch,
    /// The hashing backend returned an error.
    Hashing,
}

/// What the identity and post repository reports when an operation fails.
#[derive(Clone, Copy, Debug, PartialEq, Eq, Structural)]
pub enum RepositoryError {
    /// A uniqueness constraint was violated.
    Conflict,
    /// No row matched.
    NotFound,
    /// Any other failure.
    Other,
}

/// Faults of the server itself, reported to the client without detail.
#[derive(Clone, Copy, Debug, PartialEq, Eq, Structural)]
pub enum InternalFault {
    /// A token could not be issued.
    TokenIssue,
    /// The password could not be hashed.
    PasswordHashing,
    /// A text that should hold a UUID does not.
    UuidParse,
    /// The repository failed.
    Database,
}

/// The class of an HTTP response.
#[derive(Clone, Copy, Debug, PartialEq, Eq, Structural)]
pub enum Status {
    Success,
    Created,
    Unauthorized,
    NotFound,
    Conflict,
    InternalServerError,
}

impl Status {
    /// The numeric status code.
    pub open spec fn code_spec(self) -> u16 {
        match self {
            Status::Success => 200,
            Status::Created => 201,
            Status::Unauthorized => 401,
            Status::NotFound => 404,
            Status::Conflict => 409,
            Status::InternalServerError => 500,
        }
    }

    /// The numeric status code.
    pub fn code(&self) -> (code: u16)
        ensures
            code == self.code_spec(),
    {
        match self {
            Status::Success => 200,
            Status::Created => 201,
            Status::Unauthorized => 401,
            Status::NotFound => 404,
            Status::Conflict => 409,
            Status::InternalServerError => 500,
        }
    }
}

/// Every terminal failure that a request can end in.
#[derive(Clone, Copy, Debug, PartialEq, Eq, Structural)]
pub enum ApiError {
    /// The request carries no access token.
    MissingToken,
    /// The access token has expired and the request carries no refresh token.
    MissingRefreshToken,
    /// The access token has expired and the refresh token was not accepted.
    InvalidRefreshToken(TokenError),
    /// The access token was rejected for a reason other than expiry.
    InvalidToken,
    /// The password does not match the stored hash, or the stored hash
    /// cannot be read.
    InvalidCredentials,
    /// No user has the given email address.
    UserNotFound,
    /// A protected handler ran without claims attached to the request.
    NoClaimsFound,
    /// No post has the given id.
    PostNotFound,
    /// The email address is already registered.
    EmailTaken,
    /// A post with the same title exists.
    PostTitleTaken,
    /// A fault of the server.
    Internal(InternalFault),
}

impl ApiError {
    /// The status class that the failure is reported with.
    pub open spec fn status_spec(self) -> Status {
        match self {
            ApiError::MissingToken => Status::Unauthorized,
            ApiError::MissingRefreshToken => Status::Unauthorized,
            ApiError::InvalidRefreshToken(_) => Status::Unauthorized,
            ApiError::InvalidToken => Status::Unauthorized,
            ApiError::InvalidCredentials => Status::Unauthorized,
            ApiError::UserNotFound => Status::NotFound,
            ApiError::NoClaimsFound => Status::NotFound,
            ApiError::PostNotFound => Status::NotFound,
            ApiError::EmailTaken => Status::Conflict,
            ApiError::PostTitleTaken => Status::Conflict,
            ApiError::Internal(_) => Status::InternalServerError,
        }
    }

    /// The status class that the failure is reported with.
    pub fn status(&self) -> (status: Status)
        ensures
            status == self.status_spec(),
    {
        match self {
            ApiError::MissingToken => Status::Unauthorized,
            ApiError::MissingRefreshToken => Status::Unauthorized,
            ApiError::InvalidRefreshToken(_) => Status::Unauthorized,
            ApiError::InvalidToken => Status::Unauthorized,
            ApiError::InvalidCredentials => Status::Unauthorized,
            ApiError::UserNotFound => Status::NotFound,
            ApiError::NoClaimsFound => Status::NotFound,
            ApiError::PostNotFound => Status::NotFound,
            ApiError::EmailTaken => Status::Conflict,
            ApiError::PostTitleTaken => Status::Conflict,
            ApiError::Internal(_) => Status::InternalServerError,
        }
    }
}

impl ApiError {
    /// The message that the failure is reported with.
    pub open spec fn message_spec(self) -> Seq<char> {
        match self {
            ApiError::MissingToken => "Missing access token"@,
            ApiError::MissingRefreshToken => "Missing refresh token"@,
            ApiError::InvalidRefreshToken(TokenError::Expired) => "Expired refresh token"@,
            ApiError::InvalidRefreshToken(TokenError::Malformed) => "Invalid refresh token"@,
            ApiError::InvalidToken => "Invalid token. Please try again!"@,
            ApiError::InvalidCredentials => "Invalid credentials. Please try again!"@,
            ApiError::UserNotFound => "User with provided email does not exist. Please try again!"@,
            ApiError::NoClaimsFound => "No claims found in the request data"@,
            ApiError::PostNotFound => "Post with given id not found!"@,
            ApiError::EmailTaken => "Email already exists. Please try again!"@,
            ApiError::PostTitleTaken => "Post with given title already exists!"@,
            ApiError::Internal(InternalFault::TokenIssue) => "Error generating access token!"@,
            ApiError::Internal(InternalFault::PasswordHashing) => "Failed to hash password"@,
            ApiError::Internal(InternalFault::UuidParse) => "Error parsing uuid from string"@,
            ApiError::Internal(InternalFault::Database) => "Database error"@,
        }
    }

    /// The message that the failure is reported with. It names the failure
    /// and gives no detail of the server's state.
    pub fn message(&self) -> (text: String)
        ensures
            text@ == self.message_spec(),
    {
        match self {
            ApiError::MissingToken => "Missing access token".to_string(),
            ApiError::MissingRefreshToken => "Missing refresh token".to_string(),
            ApiError::InvalidRefreshToken(TokenError::Expired) => "Expired refresh token".to_string(),
            ApiError::InvalidRefreshToken(TokenError::Malformed) =>
                "Invalid refresh token".to_string(),
            ApiError::InvalidToken => "Invalid token. Please try again!".to_string(),
            ApiError::InvalidCredentials => "Invalid credentials. Please try again!".to_string(),
            ApiError::UserNotFound =>
                "User with provided email does not exist. Please try again!".to_string(),
            ApiError::NoClaimsFound => "No claims found in the request data".to_string(),
            ApiError::PostNotFound => "Post with given id not found!".to_string(),
            ApiError::EmailTaken => "Email already exists. Please try again!".to_string(),
            ApiError::PostTitleTaken => "Post with given title already exists!".to_string(),
            ApiError::Internal(InternalFault::TokenIssue) =>
                "Error generating access token!".to_string(),
            ApiError::Internal(InternalFault::PasswordHashing) =>
                "Failed to hash password".to_string(),
            ApiError::Internal(InternalFault::UuidParse) =>
                "Error parsing uuid from string".to_string(),
            ApiError::Internal(InternalFault::Database) => "Database error".to_string(),
        }
    }
}

} // verus!
