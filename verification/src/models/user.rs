//! Users, their credentials and the bodies of the register and login calls.

use vstd::prelude::*;

verus! {

/// The id of a user: the 128 bits of its UUID.
pub type UserId = u128;

/// A user as the directory knows it.
#[derive(Debug, Clone)]
pub struct User {
    pub id: UserId,
    pub username: String,
    /// The bcrypt hash of the password; never the password itself.
    pub password_hash: String,
}

/// What the directory needs to store a new user.
#[derive(Debug)]
pub struct NewUser<'a> {
    pub username: &'a str,
    pub password_hash: &'a str,
}

/// Body of a registration request.
#[derive(Debug)]
pub struct RegisterPayload {
    pub username: String,
    pub password: String,
}

/// Body of a login request.
#[derive(Debug)]
pub struct LoginPayload {
    pub username: String,
    pub password: String,
}

/// Answer to a successful registration or login.
#[derive(Debug)]
pub struct LoginResponse {
    pub token: String,
    pub token_type: String,
}

/// The identity that a request runs under once the authentication gate has
/// let it pass.
/// Made anew for each request and never stored.
#[derive(Debug, Clone, Copy)]
pub struct AuthenticatedUser {
    pub user_id: UserId,
}

} // verus!
