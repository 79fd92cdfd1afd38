//! Decisions that the server's request handlers take.
pub mod account;
pub mod validator;
