//! Where teams come from.
use vstd::prelude::*;

use crate::domain::entities::team::Team;
use crate::domain::errors::DomainError;
use crate::domain::value_objects::team_id::TeamId;

verus! {

/// A source of teams.
pub trait TeamRepository {
    /// Every team of the workspace.
    fn list(&self) -> Result<Vec<Team>, DomainError>;

    /// One team.
    fn get(&self, id: TeamId) -> Result<Team, DomainError>;
}

} // verus!
