//! The plain-value parts of the API-backed repositories: turning API nodes into
//! entities and domain inputs into API inputs.
pub mod issue_repository;
pub mod project_repository;
pub mod team_repository;
