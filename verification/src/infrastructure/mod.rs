//! The shapes of the Linear GraphQL API's requests and responses, the reading of
//! its answers, and the plain-value parts of the repositories and stores.
pub mod auth;
pub mod graphql;
pub mod repositories;
