//! Registration and login.
//!
//! Each flow is cut at its call to the user directory. Registration checks
//! the request and hashes the password, the caller stores the user, and
//! `login_response` issues the token. Login checks the request, the caller
//! looks the user up, `login_handler` checks the password, and
//! `login_response` issues the token.

use vstd::prelude::*;
use crate::auth::jwt::{create_jwt_at, is_reading, issued_at, unix_now};
use crate::auth::password::{bcrypt_verdict, hash_password, hashed, verify_password};
use crate::config::AppConfig;
use crate::errors::AppError;
use crate::models::user::{LoginPayload, LoginResponse, RegisterPayload, User, UserId};

verus! {

/// Whether a name or a password is missing from the request.
pub open spec fn lacks_credentials(username: Seq<char>, password: Seq<char>) -> bool {
    username.len() == 0 || password.len() == 0
}

/// What the first step of registration results in: a bad request where the
/// name or the password is empty, else a hash that verifies against the
/// password, or the hasher's failure.
pub open spec fn registered(payload: RegisterPayload, r: Result<String, AppError>) -> bool {
    if lacks_credentials(payload.username@, payload.password@) {
        r matches Err(AppError::BadRequest(m)) && m@ == "Invalid name or password too short"@
    } else {
        hashed(payload.password@, r)
    }
}

/// First step of registration: refuses a request without name or password
/// and returns the password's hash, which is what the directory stores.
pub fn register_handler(payload: &RegisterPayload) -> (r: Result<String, AppError>)
    ensures
        registered(*payload, r),
{
    if payload.username.as_str().is_empty() || payload.password.as_str().is_empty() {
        return Err(AppError::BadRequest("Invalid name or password too short".to_owned()));
    }
    hash_password(payload.password.as_str())
}

/// First step of login: refuses a request without name or password, before
/// the directory is asked.
pub fn login_request(payload: &LoginPayload) -> (r: Result<(), AppError>)
    ensures
        if lacks_credentials(payload.username@, payload.password@) {
            r matches Err(AppError::BadRequest(m)) && m@ == "Username and password are required"@
        } else {
            r is Ok
        },
{
    if payload.username.as_str().is_empty() || payload.password.as_str().is_empty() {
        return Err(AppError::BadRequest("Username and password are required".to_owned()));
    }
    Ok(())
}

/// What login results in, given what the directory found under the name.
///
/// An unknown name and a wrong password give the same answer. A stored hash
/// that is no bcrypt hash is a failure of the server, not of the user.
pub open spec fn logged_in(payload: LoginPayload, user: Option<&User>, r: Result<
    UserId,
    AppError,
>) -> bool {
    if lacks_credentials(payload.username@, payload.password@) {
        r matches Err(AppError::BadRequest(m)) && m@ == "Username and password are required"@
    } else {
        match user {
            None => r == Err::<UserId, AppError>(AppError::InvalidCredentials),
            Some(u) => match bcrypt_verdict(payload.password@, u.password_hash@) {
                Some(true) => r == Ok::<UserId, AppError>(u.id),
                Some(false) => r == Err::<UserId, AppError>(AppError::InvalidCredentials),
                None => r matches Err(e) && e is PasswordHashingError,
            },
        }
    }
}

/// Second step of login: checks the password against the user that the
/// directory found under the name, if any. Returns the id to issue a token
/// for.
pub fn login_handler(payload: &LoginPayload, user: Option<&User>) -> (r: Result<
    UserId,
    AppError,
>)
    ensures
        logged_in(*payload, user, r),
{
    match login_request(payload) {
        Err(e) => { return Err(e); },
        Ok(_) => {},
    }
    let user = match user {
        Some(u) => u,
        None => { return Err(AppError::InvalidCredentials); },
    };
    match verify_password(payload.password.as_str(), user.password_hash.as_str()) {
        Err(e) => Err(e),
        Ok(false) => Err(AppError::InvalidCredentials),
        Ok(true) => Ok(user.id),
    }
}

/// What the last step of both flows results in at `now`: a bearer token
/// issued for the user under the configured secret and lifetime, or the
/// failure of issuing.
pub open spec fn responded_at(user_id: UserId, config: AppConfig, now: i64, r: Result<
    LoginResponse,
    AppError,
>) -> bool {
    match r {
        Ok(response) => {
            &&& response.token_type@ == "Bearer"@
            &&& issued_at(
                user_id,
                config.jwt_secret@,
                config.jwt_expiration_seconds,
                now,
                Ok(response.token),
            )
        },
        Err(e) => issued_at(
            user_id,
            config.jwt_secret@,
            config.jwt_expiration_seconds,
            now,
            Err(e),
        ),
    }
}

/// Last step of both flows, as of `now`: issues the token for the user and
/// wraps it in the answer.
pub fn login_response_at(user_id: UserId, config: &AppConfig, now: i64) -> (r: Result<
    LoginResponse,
    AppError,
>)
    ensures
        responded_at(user_id, *config, now, r),
{
    match create_jwt_at(user_id, config.jwt_secret.as_str(), config.jwt_expiration_seconds, now) {
        Ok(token) => Ok(LoginResponse { token, token_type: "Bearer".to_owned() }),
        Err(e) => Err(e),
    }
}

/// Last step of both flows, against the clock: what `login_response_at`
/// does at some reading of the clock.
pub fn login_response(user_id: UserId, config: &AppConfig) -> (r: Result<
    LoginResponse,
    AppError,
>)
    ensures
        exists|now: i64| is_reading(now) && responded_at(user_id, *config, now, r),
{
    let now = unix_now();
    login_response_at(user_id, config, now)
}

/// A user who registers can log in: where the directory stores the hash
/// that registration returned, login with the same password is accepted and
/// names that user.
pub proof fn lemma_registered_user_logs_in(
    registration: RegisterPayload,
    hashed: Result<String, AppError>,
    login: LoginPayload,
    user: &User,
    r: Result<UserId, AppError>,
)
    requires
        registered(registration, hashed),
        hashed matches Ok(hash) && user.password_hash@ == hash@,
        login.username@ == registration.username@,
        login.password@ == registration.password@,
        logged_in(login, Some(user), r),
    ensures
        r == Ok::<UserId, AppError>(user.id),
{
}

} // verus!
