//! Creating, updating and archiving projects through the API.
use vstd::prelude::*;

use crate::domain::errors::DomainError;

verus! {

/// The fields of the project-creation mutation; dates are `YYYY-MM-DD`.
#[derive(Debug)]
pub struct ProjectCreateInput {
    pub name: String,
    pub team_ids: Vec<String>,
    pub description: Option<String>,
    pub lead_id: Option<String>,
    pub start_date: Option<String>,
    pub target_date: Option<String>,
    pub status_id: Option<String>,
}

/// Variables of the project-creation mutation.
#[derive(Debug)]
pub struct ProjectCreateVariables {
    pub input: ProjectCreateInput,
}

/// The fields of the project-update mutation; dates are `YYYY-MM-DD`.
#[derive(Debug)]
pub struct ProjectUpdateInput {
    pub name: Option<String>,
    pub description: Option<String>,
    pub lead_id: Option<String>,
    pub start_date: Option<String>,
    pub target_date: Option<String>,
    pub status_id: Option<String>,
}

/// Variables of the project-update mutation.
#[derive(Debug)]
pub struct ProjectUpdateVariables {
    pub id: String,
    pub input: ProjectUpdateInput,
}

/// Variables of the project-archive mutation.
#[derive(Debug)]
pub struct ProjectArchiveVariables {
    pub id: String,
}

/// Reads the archive mutation's answer: a failure means the project was archived
/// already; on success, the archived entity's id, or the requested id when the
/// payload names none.
pub fn archive_result(success: bool, entity_id: Option<String>, id: &str) -> (r: Result<String, DomainError>)
    ensures
        !success ==> (r matches Err(DomainError::NotFound(m)) && m@ == "project is already archived"@),
        success ==> (entity_id matches Some(e) ==> r == Ok::<String, DomainError>(e)),
        success && entity_id is None ==> (r matches Ok(s) && s@ == id@),
{
    if !success {
        return Err(DomainError::NotFound(String::from_str("project is already archived")));
    }
    match entity_id {
        Some(e) => Ok(e),
        None => Ok(String::from_str(id)),
    }
}

} // verus!
