//! Queries: their variables, the nodes they return, and reading their answers.
pub mod project_queries;
pub mod issue_queries;
