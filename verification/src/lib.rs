//! Verified core of a command-line client for the Linear issue tracker:
//! value objects, entities, request/response shaping and the decision logic
//! of each use case.
pub mod text;
pub mod dates;
pub mod domain;
pub mod num;
pub mod application;
pub mod infrastructure;
pub mod cli;
