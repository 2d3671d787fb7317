//! The commands and their arguments.
pub mod auth;
pub mod issue;
pub mod project;
pub mod team;
