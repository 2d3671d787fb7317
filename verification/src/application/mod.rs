//! The use cases: each one's decisions, with the calls it makes to repositories,
//! stores and the API written as actions that the caller performs.
pub mod errors;
pub mod use_cases;
