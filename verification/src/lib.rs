//! Credential login and session storage for a small web application.
//!
//! The crate holds the rules of the authentication subsystem: how a user is
//! registered and looked up, how a password is checked against its stored
//! hash, how session rows are written, read, expired and swept, and what the
//! login guard decides for a request. Every function carries a contract that
//! is proved against a mathematical model of the tables.

pub mod controllers;
pub mod errors;
pub mod models;
pub mod password;
pub mod repositories;
pub mod theorems;
