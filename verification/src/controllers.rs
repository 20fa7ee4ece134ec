//! What the handlers of the login and registration forms decide.

pub mod auth_controller;
