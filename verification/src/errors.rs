//! The failures of the service and what a client is told about each.

use vstd::prelude::*;
use crate::config::ConfigError;

verus! {

/// `bcrypt::BcryptError`, the hasher's own error. It is carried along as
/// the cause and never looked into.
#[verifier::external_type_specification]
#[verifier::external_body]
pub struct ExBcryptError(bcrypt::BcryptError);

/// `jsonwebtoken::errors::Error`, the codec's own error. It is carried
/// along as the cause and never looked into.
#[verifier::external_type_specification]
#[verifier::external_body]
pub struct ExJwtError(jsonwebtoken::errors::Error);

/// Why a token was not issued or not accepted.
#[derive(Debug)]
pub enum TokenError {
    /// The text has not the frame of a signed token: three parts set apart
    /// by dots, the last of them not empty.
    Malformed,
    /// The header cannot be read or names an algorithm other than HS256.
    UnexpectedAlgorithm,
    /// The signature is not the one that the secret gives.
    BadSignature,
    /// The codec refused to make a token, or to read one whose frame,
    /// algorithm and signature are in order.
    Rejected(jsonwebtoken::errors::Error),
    /// The signature holds, but a claim is absent or not of its type.
    MissingClaim,
    /// The expiry time has been reached.
    Expired,
}

/// Every failure a request can end in.
#[derive(Debug)]
pub enum AppError {
    ConfigError(ConfigError),
    /// The user directory failed. Holds the cause as text.
    DatabaseError(String),
    PasswordHashingError(bcrypt::BcryptError),
    JwtError(TokenError),
    /// A known user's password did not verify, or the user is unknown.
    InvalidCredentials,
    /// The one answer of the authentication gate, whatever the cause.
    Unauthorized,
    UserAlreadyExists,
    BadRequest(String),
    InternalServerError(String),
}

/// What a client sees of a failure: an HTTP status and a message that
/// gives away no internal detail.
#[derive(Debug)]
pub struct ErrorResponse {
    pub status: u16,
    pub message: String,
}

impl AppError {
    /// The HTTP status of each failure.
    pub open spec fn status(self) -> u16 {
        match self {
            AppError::ConfigError(_) => 500,
            AppError::DatabaseError(_) => 500,
            AppError::PasswordHashingError(_) => 500,
            AppError::JwtError(_) => 401,
            AppError::InvalidCredentials => 401,
            AppError::Unauthorized => 401,
            AppError::UserAlreadyExists => 409,
            AppError::BadRequest(_) => 400,
            AppError::InternalServerError(_) => 500,
        }
    }

    /// The message sent to the client. Only a bad request echoes its own
    /// text; every other cause stays on the server.
    pub open spec fn message(self) -> Seq<char> {
        match self {
            AppError::ConfigError(_) => "Server configuration error"@,
            AppError::DatabaseError(_) => "Database operation failed"@,
            AppError::PasswordHashingError(_) => "Internal server error"@,
            AppError::JwtError(_) => "Invalid or expired token"@,
            AppError::InvalidCredentials => "Incorrect email or password"@,
            AppError::Unauthorized => "Authentication required"@,
            AppError::UserAlreadyExists => "Username is already in use"@,
            AppError::BadRequest(msg) => msg@,
            AppError::InternalServerError(_) => "An unexpected error occurred"@,
        }
    }

    /// Turns the failure into the status and message for the client.
    pub fn into_response(self) -> (r: ErrorResponse)
        ensures
            r.status == self.status(),
            r.message@ == self.message(),
    {
        match self {
            AppError::ConfigError(_) => ErrorResponse {
                status: 500,
                message: "Server configuration error".to_owned(),
            },
            AppError::DatabaseError(_) => ErrorResponse {
                status: 500,
                message: "Database operation failed".to_owned(),
            },
            AppError::PasswordHashingError(_) => ErrorResponse {
                status: 500,
                message: "Internal server error".to_owned(),
            },
            AppError::JwtError(_) => ErrorResponse {
                status: 401,
                message: "Invalid or expired token".to_owned(),
            },
            AppError::InvalidCredentials => ErrorResponse {
                status: 401,
                message: "Incorrect email or password".to_owned(),
            },
            AppError::Unauthorized => ErrorResponse {
                status: 401,
                message: "Authentication required".to_owned(),
            },
            AppError::UserAlreadyExists => ErrorResponse {
                status: 409,
                message: "Username is already in use".to_owned(),
            },
            AppError::BadRequest(msg) => ErrorResponse { status: 400, message: msg },
            AppError::InternalServerError(_) => ErrorResponse {
                status: 500,
                message: "An unexpected error occurred".to_owned(),
            },
        }
    }

    /// What a failed insert into the user directory means: the name is
    /// taken where the directory reports a breach of uniqueness, and a
    /// failure of the directory otherwise.
    pub fn from_insert_failure(unique_violation: bool, cause: String) -> (r: AppError)
        ensures
            r == if unique_violation {
                AppError::UserAlreadyExists
            } else {
                AppError::DatabaseError(cause)
            },
    {
        if unique_violation {
            AppError::UserAlreadyExists
        } else {
            AppError::DatabaseError(cause)
        }
    }
}

} // verus!
