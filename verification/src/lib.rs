//! Trust boundary of a question-and-answer API: password hashing and
//! verification, encrypted session tokens, per-request authentication,
//! ownership checks, and a resilient moderation gateway.

pub mod account;
pub mod answer;
pub mod answers;
pub mod authentication;
pub mod claims;
pub mod config;
pub mod error;
pub mod num;
pub mod pagination;
pub mod password;
pub mod profanity;
pub mod question;
pub mod questions;
pub mod token;
