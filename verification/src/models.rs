//! Values handed to the pages: what a user may see of an account.

pub mod user;
