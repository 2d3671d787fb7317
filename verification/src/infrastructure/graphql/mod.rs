//! GraphQL request inputs, response nodes and their interpretation.
pub mod queries;
pub mod mutations;
pub mod client;
