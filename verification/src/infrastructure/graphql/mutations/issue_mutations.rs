//! Creating and updating issues through the API.
use vstd::prelude::*;

use crate::domain::errors::DomainError;

verus! {

/// The fields of the issue-creation mutation.
#[derive(Debug)]
pub struct IssueCreateInput {
    pub title: String,
    pub team_id: String,
    pub project_id: Option<String>,
    pub description: Option<String>,
    pub priority: Option<i32>,
    pub assignee_id: Option<String>,
    pub label_ids: Option<Vec<String>>,
    pub due_date: Option<String>,
    pub estimate: Option<i32>,
    pub parent_id: Option<String>,
}

/// Variables of the issue-creation mutation.
#[derive(Debug)]
pub struct IssueCreateVariables {
    pub input: IssueCreateInput,
}

/// The fields of the issue-update mutation. `parent_id` is `Some(None)` to send an
/// explicit null, which detaches the issue from its parent.
#[derive(Debug)]
pub struct IssueUpdateInput {
    pub title: Option<String>,
    pub description: Option<String>,
    pub state_id: Option<String>,
    pub priority: Option<i32>,
    pub assignee_id: Option<String>,
    pub due_date: Option<String>,
    pub estimate: Option<i32>,
    pub parent_id: Option<Option<String>>,
}

/// Variables of the issue-update mutation.
#[derive(Debug)]
pub struct IssueUpdateVariables {
    pub id: String,
    pub input: IssueUpdateInput,
}

/// The entity of a mutation payload: a failure reported by the API is refused
/// with `failure_message`, a success without the entity with `missing_message`.
pub fn payload_entity<T>(success: bool, entity: Option<T>, failure_message: &str, missing_message: &str) -> (r: Result<T, DomainError>)
    ensures
        !success ==> (r matches Err(DomainError::InvalidInput(m)) && m@ == failure_message@),
        success && entity is None ==> (r matches Err(DomainError::InvalidInput(m)) && m@
            == missing_message@),
        success ==> (entity matches Some(e) ==> r == Ok::<T, DomainError>(e)),
{
    if !success {
        return Err(DomainError::InvalidInput(String::from_str(failure_message)));
    }
    match entity {
        Some(e) => Ok(e),
        None => Err(DomainError::InvalidInput(String::from_str(missing_message))),
    }
}

/// Reads the deletion mutation's answer: a failure reported by the API is
/// refused.
pub fn delete_result(success: bool) -> (r: Result<(), DomainError>)
    ensures
        success ==> r is Ok,
        !success ==> (r matches Err(DomainError::InvalidInput(m)) && m@
            == "issue delete reported failure"@),
{
    if success {
        Ok(())
    } else {
        Err(DomainError::InvalidInput(String::from_str("issue delete reported failure")))
    }
}

} // verus!
