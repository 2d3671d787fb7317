//! Listing teams.
use vstd::prelude::*;

use crate::application::errors::ApplicationError;
use crate::domain::entities::team::Team;
use crate::domain::errors::DomainError;

verus! {

/// Lists teams through the repository.
pub struct ListTeams;

impl ListTeams {
    pub fn new() -> Self {
        ListTeams
    }

    /// The repository's answer, its error wrapped as a domain error.
    pub fn on_listed(&self, result: Result<Vec<Team>, DomainError>) -> (r: Result<
        Vec<Team>,
        ApplicationError,
    >)
        ensures
            result matches Ok(l) ==> r == Ok::<Vec<Team>, ApplicationError>(l),
            result matches Err(e) ==> r == Err::<Vec<Team>, ApplicationError>(
                ApplicationError::Domain(e),
            ),
    {
        match result {
            Ok(l) => Ok(l),
            Err(e) => Err(ApplicationError::Domain(e)),
        }
    }
}

} // verus!
