//! The records the command line shows and edits.
pub mod auth_session;
pub mod issue;
pub mod login_result;
pub mod project;
pub mod team;
pub mod workspace;
