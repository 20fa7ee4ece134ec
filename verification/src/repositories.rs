//! The stores: users, sessions, and the backends built on them.

pub mod auth_backend;
pub mod postgres_store;
pub mod session_repository;
pub mod user_repository;
