//! Deleting an issue.
use vstd::prelude::*;

use crate::domain::errors::DomainError;
use crate::domain::value_objects::issue_id::IssueId;

verus! {

/// How a delete request ended.
#[derive(Debug, PartialEq, Eq)]
pub enum DeleteOutcome {
    Deleted,
}

/// The next thing the delete use case needs: the repository to delete the issue,
/// or nothing more.
#[derive(Debug)]
pub enum DeleteAction {
    Delete(IssueId),
    Finish(Result<DeleteOutcome, DomainError>),
}

/// Deletes an issue unless it is a dry run.
pub struct DeleteIssue;

impl DeleteIssue {
    pub fn new() -> Self {
        DeleteIssue
    }

    /// A dry run reports the issue deleted without asking the repository;
    /// otherwise the repository is asked to delete it.
    pub fn start(&self, id: IssueId, dry_run: bool) -> (a: DeleteAction)
        ensures
            dry_run ==> a == DeleteAction::Finish(Ok(DeleteOutcome::Deleted)),
            !dry_run ==> (a matches DeleteAction::Delete(i) && i@ == id@),
    {
        if dry_run {
            DeleteAction::Finish(Ok(DeleteOutcome::Deleted))
        } else {
            DeleteAction::Delete(id)
        }
    }

    /// Success of the repository call means deleted; its error is passed on.
    pub fn on_deleted(&self, result: Result<(), DomainError>) -> (r: Result<
        DeleteOutcome,
        DomainError,
    >)
        ensures
            result is Ok ==> r == Ok::<DeleteOutcome, DomainError>(DeleteOutcome::Deleted),
            result matches Err(e) ==> r == Err::<DeleteOutcome, DomainError>(e),
    {
        match result {
            Ok(()) => Ok(DeleteOutcome::Deleted),
            Err(e) => Err(e),
        }
    }
}

} // verus!
