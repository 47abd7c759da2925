//! Credential hashing, token codec and the authentication gate.

pub mod jwt;
pub mod middleware;
pub mod password;
