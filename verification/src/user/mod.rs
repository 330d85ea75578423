//! Projects and users.
pub mod project;
pub mod user;
