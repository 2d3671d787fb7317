//! Creating a project.
use vstd::prelude::*;

use crate::domain::entities::project::{team_id_views, CreateProjectInput};
use crate::domain::errors::DomainError;
use crate::domain::value_objects::team_id::TeamId;
use crate::domain::value_objects::user_id::UserId;
use crate::text::views_of_strings;

verus! {

/// The project fields as the command line gives them; dates are canonical
/// `YYYY-MM-DD` strings.
#[derive(Debug)]
pub struct CreateProjectArgs {
    pub name: String,
    pub team_ids: Vec<String>,
    pub description: Option<String>,
    pub lead_id: Option<String>,
    pub start_date: Option<String>,
    pub target_date: Option<String>,
}

/// Some team id in the list is empty.
pub open spec fn has_empty_team_id(ids: Seq<String>) -> bool {
    exists|i: int| 0 <= i < ids.len() && (#[trigger] ids[i])@.len() == 0
}

/// Validates the arguments of a new project and builds the repository input.
pub struct CreateProject;

impl CreateProject {
    pub fn new() -> Self {
        CreateProject
    }

    /// Checks the name and the teams, then (unless it is a dry run, which yields
    /// `None`) builds the input: every team id and the lead must be non-empty.
    pub fn prepare(&self, args: CreateProjectArgs, dry_run: bool) -> (r: Result<
        Option<CreateProjectInput>,
        DomainError,
    >)
        ensures
            args.name@.len() == 0 ==> (r matches Err(DomainError::InvalidInput(m)) && m@
                == "project name cannot be empty"@),
            args.name@.len() > 0 && args.team_ids@.len() == 0 ==> (r matches Err(
                DomainError::InvalidInput(m),
            ) && m@ == "at least one team id is required"@),
            args.name@.len() > 0 && args.team_ids@.len() > 0 && dry_run ==> (r matches Ok(None)),
            args.name@.len() > 0 && args.team_ids@.len() > 0 && !dry_run && has_empty_team_id(
                args.team_ids@,
            ) ==> (r matches Err(DomainError::InvalidInput(m)) && m@ == "team id cannot be empty"@),
            args.name@.len() > 0 && args.team_ids@.len() > 0 && !dry_run && !has_empty_team_id(
                args.team_ids@,
            ) && (args.lead_id matches Some(l) && l@.len() == 0) ==> (r matches Err(
                DomainError::InvalidInput(m),
            ) && m@ == "user id cannot be empty"@),
            r matches Ok(Some(input)) ==> input.name == args.name && team_id_views(input.team_ids@)
                == views_of_strings(args.team_ids@) && input.description == args.description
                && (args.lead_id matches Some(l) ==> (input.lead_id matches Some(u) && u@ == l@))
                && (args.lead_id is None ==> input.lead_id is None) && input.start_date
                == args.start_date && input.target_date == args.target_date,
            args.name@.len() > 0 && args.team_ids@.len() > 0 && !dry_run && !has_empty_team_id(
                args.team_ids@,
            ) && !(args.lead_id matches Some(l) && l@.len() == 0) ==> (r matches Ok(Some(_))),
    {
        if args.name.as_str().is_empty() {
            return Err(DomainError::InvalidInput(String::from_str("project name cannot be empty")));
        }
        if args.team_ids.len() == 0 {
            return Err(
                DomainError::InvalidInput(String::from_str("at least one team id is required")),
            );
        }
        if dry_run {
            return Ok(None);
        }
        let mut team_ids: Vec<TeamId> = Vec::new();
        let mut i: usize = 0;
        while i < args.team_ids.len()
            invariant
                args.name@.len() > 0,
                args.team_ids@.len() > 0,
                !dry_run,
                i <= args.team_ids@.len(),
                team_ids@.len() == i,
                team_id_views(team_ids@) == views_of_strings(args.team_ids@).take(i as int),
                forall|k: int| 0 <= k < i ==> (#[trigger] args.team_ids@[k])@.len() > 0,
            decreases args.team_ids@.len() - i,
        {
            match TeamId::new(args.team_ids[i].clone()) {
                Ok(t) => {
                    team_ids.push(t);
                    proof {
                        assert(team_id_views(team_ids@) =~= views_of_strings(args.team_ids@).take(
                            (i + 1) as int,
                        ));
                    }
                },
                Err(e) => {
                    assert(args.team_ids@[i as int]@.len() == 0);
                    return Err(e);
                },
            }
            i = i + 1;
        }
        proof {
            assert(views_of_strings(args.team_ids@).take(args.team_ids@.len() as int)
                =~= views_of_strings(args.team_ids@));
        }
        let lead_id = match args.lead_id {
            Some(l) => match UserId::new(l) {
                Ok(u) => Some(u),
                Err(e) => {
                    return Err(e);
                },
            },
            None => None,
        };
        Ok(
            Some(
                CreateProjectInput {
                    name: args.name,
                    team_ids,
                    description: args.description,
                    lead_id,
                    start_date: args.start_date,
                    target_date: args.target_date,
                },
            ),
        )
    }
}

} // verus!
