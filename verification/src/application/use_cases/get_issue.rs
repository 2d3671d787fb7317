//! Fetching one issue.
use vstd::prelude::*;

use crate::application::errors::ApplicationError;
use crate::domain::entities::issue::Issue;
use crate::domain::errors::DomainError;
use crate::domain::value_objects::issue_id::IssueId;

verus! {

/// Fetches an issue by its id or display id.
pub struct GetIssue;

impl GetIssue {
    pub fn new() -> Self {
        GetIssue
    }

    /// The id to fetch; an empty one is refused with the message of the id's
    /// own error wrapped as invalid input.
    pub fn start(&self, id: String) -> (r: Result<IssueId, ApplicationError>)
        ensures
            id@.len() > 0 ==> (r matches Ok(i) && i@ == id@),
            id@.len() == 0 ==> (r matches Err(ApplicationError::Domain(DomainError::InvalidInput(m)))
                && m@ == "invalid input: issue id cannot be empty"@),
    {
        proof {
            reveal_strlit("invalid input: ");
            reveal_strlit("issue id cannot be empty");
            reveal_strlit("invalid input: issue id cannot be empty");
            assert("invalid input: "@ + "issue id cannot be empty"@
                =~= "invalid input: issue id cannot be empty"@);
        }
        match IssueId::new(id) {
            Ok(i) => Ok(i),
            Err(e) => Err(ApplicationError::Domain(DomainError::InvalidInput(e.to_string()))),
        }
    }

    /// The repository's answer, its error wrapped as a domain error.
    pub fn on_fetched(&self, result: Result<Issue, DomainError>) -> (r: Result<Issue, ApplicationError>)
        ensures
            result matches Ok(i) ==> r == Ok::<Issue, ApplicationError>(i),
            result matches Err(e) ==> r == Err::<Issue, ApplicationError>(ApplicationError::Domain(e)),
    {
        match result {
            Ok(i) => Ok(i),
            Err(e) => Err(ApplicationError::Domain(e)),
        }
    }
}

} // verus!
