//! Mutations: their inputs and the reading of their payloads.
pub mod issue_mutations;
pub mod project_mutations;
