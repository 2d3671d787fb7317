//! Entities, value objects and the errors of the issue-tracker domain.
pub mod errors;
pub mod value_objects;
pub mod entities;
pub mod repositories;
