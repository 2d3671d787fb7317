//! The inputs of the project operations. Dates are held in their canonical
//! `YYYY-MM-DD` form.
use vstd::prelude::*;

use crate::domain::value_objects::project_state::ProjectState;
use crate::domain::value_objects::team_id::TeamId;
use crate::domain::value_objects::user_id::UserId;

verus! {

/// The fields of a new project.
#[derive(Debug)]
pub struct CreateProjectInput {
    pub name: String,
    pub team_ids: Vec<TeamId>,
    pub description: Option<String>,
    pub lead_id: Option<UserId>,
    pub start_date: Option<String>,
    pub target_date: Option<String>,
}

/// The fields to change on a project.
#[derive(Debug)]
pub struct UpdateProjectInput {
    pub name: Option<String>,
    pub description: Option<String>,
    pub state: Option<ProjectState>,
    pub lead_id: Option<UserId>,
    pub start_date: Option<String>,
    pub target_date: Option<String>,
}

impl UpdateProjectInput {
    /// At least one field is to change.
    pub open spec fn spec_has_changes(&self) -> bool {
        self.name is Some || self.description is Some || self.state is Some || self.lead_id is Some
            || self.start_date is Some || self.target_date is Some
    }

    /// Whether at least one field is to change.
    pub fn has_changes(&self) -> (r: bool)
        ensures
            r == self.spec_has_changes(),
    {
        self.name.is_some() || self.description.is_some() || self.state.is_some()
            || self.lead_id.is_some() || self.start_date.is_some() || self.target_date.is_some()
    }
}

/// Each field of a repository update counts as a change on its own, and an
/// update with no field given changes nothing.
pub proof fn lemma_every_update_field_counts(i: UpdateProjectInput)
    ensures
        i.name is Some ==> i.spec_has_changes(),
        i.description is Some ==> i.spec_has_changes(),
        i.state is Some ==> i.spec_has_changes(),
        i.lead_id is Some ==> i.spec_has_changes(),
        i.start_date is Some ==> i.spec_has_changes(),
        i.target_date is Some ==> i.spec_has_changes(),
        i.name is None && i.description is None && i.state is None && i.lead_id is None
            && i.start_date is None && i.target_date is None ==> !i.spec_has_changes(),
{
}

/// The views of a sequence of team identifiers.
pub open spec fn team_id_views(v: Seq<TeamId>) -> Seq<Seq<char>> {
    v.map_values(|t: TeamId| t@)
}

} // verus!
