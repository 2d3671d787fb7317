//! Listing issues.
use vstd::prelude::*;

use crate::application::errors::ApplicationError;
use crate::domain::entities::issue::ListIssuesResult;
use crate::domain::errors::DomainError;

verus! {

/// Lists issues through the repository.
pub struct ListIssues;

impl ListIssues {
    pub fn new() -> Self {
        ListIssues
    }

    /// The repository's answer, its error wrapped as a domain error.
    pub fn on_listed(&self, result: Result<ListIssuesResult, DomainError>) -> (r: Result<
        ListIssuesResult,
        ApplicationError,
    >)
        ensures
            result matches Ok(l) ==> r == Ok::<ListIssuesResult, ApplicationError>(l),
            result matches Err(e) ==> r == Err::<ListIssuesResult, ApplicationError>(
                ApplicationError::Domain(e),
            ),
    {
        match result {
            Ok(l) => Ok(l),
            Err(e) => Err(ApplicationError::Domain(e)),
        }
    }
}

} // verus!
