//! The values that requests and answers are made of.

pub mod device;
pub mod sms;
pub mod user;
