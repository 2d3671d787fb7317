//! Teams from the API. Listing and fetching teams is not wired to the API yet:
//! a listing is empty and a fetch is refused as not implemented.
use vstd::prelude::*;

use crate::domain::entities::team::Team;
use crate::domain::errors::DomainError;
use crate::domain::repositories::team_repository::TeamRepository;
use crate::domain::value_objects::team_id::TeamId;

verus! {

/// The team repository backed by the API.
#[derive(Debug)]
pub struct LinearTeamRepository;

impl TeamRepository for LinearTeamRepository {
    /// The teams of the workspace: none, for now.
    fn list(&self) -> (r: Result<Vec<Team>, DomainError>)
        ensures
            r matches Ok(v) && v@.len() == 0,
    {
        Ok(Vec::new())
    }

    /// One team: refused as not implemented, for now.
    fn get(&self, id: TeamId) -> (r: Result<Team, DomainError>)
        ensures
            r matches Err(DomainError::NotImplemented),
    {
        Err(DomainError::NotImplemented)
    }
}

} // verus!
