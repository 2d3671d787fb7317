//! Updating a project.
use vstd::prelude::*;

use crate::domain::entities::project::UpdateProjectInput;
use crate::domain::errors::DomainError;
use crate::domain::value_objects::project_state::ProjectState;
use crate::domain::value_objects::user_id::UserId;

verus! {

/// The fields to change as the command line gives them; dates are canonical
/// `YYYY-MM-DD` strings.
#[derive(Debug)]
pub struct UpdateProjectArgs {
    pub name: Option<String>,
    pub description: Option<String>,
    pub state: Option<ProjectState>,
    pub lead_id: Option<String>,
    pub start_date: Option<String>,
    pub target_date: Option<String>,
}

impl UpdateProjectArgs {
    /// At least one field is to change.
    pub open spec fn spec_has_changes(&self) -> bool {
        self.name is Some || self.description is Some || self.state is Some || self.lead_id is Some
            || self.start_date is Some || self.target_date is Some
    }

    /// Whether at least one field is to change.
    pub fn has_changes(&self) -> (r: bool)
        ensures
            r == self.spec_has_changes(),
    {
        self.name.is_some() || self.description.is_some() || self.state.is_some()
            || self.lead_id.is_some() || self.start_date.is_some() || self.target_date.is_some()
    }
}

/// Each field of a project update counts as a change on its own, and an update
/// with no field given changes nothing.
pub proof fn lemma_every_project_field_counts(a: UpdateProjectArgs)
    ensures
        a.name is Some ==> a.spec_has_changes(),
        a.description is Some ==> a.spec_has_changes(),
        a.state is Some ==> a.spec_has_changes(),
        a.lead_id is Some ==> a.spec_has_changes(),
        a.start_date is Some ==> a.spec_has_changes(),
        a.target_date is Some ==> a.spec_has_changes(),
        a.name is None && a.description is None && a.state is None && a.lead_id is None
            && a.start_date is None && a.target_date is None ==> !a.spec_has_changes(),
{
}

/// Validates the changes to a project and builds the repository input.
pub struct UpdateProject;

impl UpdateProject {
    pub fn new() -> Self {
        UpdateProject
    }

    /// Refuses an update that changes nothing; a dry run yields `None`; otherwise
    /// the lead, when given, must be non-empty.
    pub fn prepare(&self, args: UpdateProjectArgs, dry_run: bool) -> (r: Result<
        Option<UpdateProjectInput>,
        DomainError,
    >)
        ensures
            !args.spec_has_changes() ==> (r matches Err(DomainError::InvalidInput(m)) && m@
                == "at least one update field must be provided"@),
            args.spec_has_changes() && dry_run ==> (r matches Ok(None)),
            args.spec_has_changes() && !dry_run && (args.lead_id matches Some(l) && l@.len()
                == 0) ==> (r matches Err(DomainError::InvalidInput(m)) && m@
                == "user id cannot be empty"@),
            args.spec_has_changes() && !dry_run && !(args.lead_id matches Some(l) && l@.len()
                == 0) ==> (r matches Ok(Some(input)) && input.name == args.name
                && input.description == args.description && input.state == args.state && (
            args.lead_id matches Some(l) ==> (input.lead_id matches Some(u) && u@ == l@)) && (
            args.lead_id is None ==> input.lead_id is None) && input.start_date == args.start_date
                && input.target_date == args.target_date),
    {
        if !args.has_changes() {
            return Err(
                DomainError::InvalidInput(
                    String::from_str("at least one update field must be provided"),
                ),
            );
        }
        if dry_run {
            return Ok(None);
        }
        let lead_id = match args.lead_id {
            Some(l) => match UserId::new(l) {
                Ok(u) => Some(u),
                Err(e) => {
                    return Err(e);
                },
            },
            None => None,
        };
        Ok(
            Some(
                UpdateProjectInput {
                    name: args.name,
                    description: args.description,
                    state: args.state,
                    lead_id,
                    start_date: args.start_date,
                    target_date: args.target_date,
                },
            ),
        )
    }
}

} // verus!
