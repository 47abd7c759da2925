//! Authentication core of an SMS forwarding service: credential hashing,
//! signed bearer tokens, the authentication gate that every protected
//! request passes, and the decisions of the register and login flows.
//!
//! Everything here works on plain values. Reading the environment, talking to
//! the user directory and answering HTTP requests are left to the caller.

pub mod auth;
pub mod config;
pub mod errors;
pub mod handlers;
pub mod models;
