//! Archiving a project.
use vstd::prelude::*;

use crate::domain::errors::DomainError;
use crate::domain::value_objects::project_id::ProjectId;
use crate::text::{contains_str, has_infix, lowercase, to_lowercase};

verus! {

/// How an archive request ended.
#[derive(Debug, PartialEq, Eq)]
pub enum ArchiveOutcome {
    Archived,
    AlreadyArchived,
}

/// The next thing the archive use case needs: the repository to archive the
/// project, or nothing more.
#[derive(Debug)]
pub enum ArchiveAction {
    Archive(ProjectId),
    Finish(Result<ArchiveOutcome, DomainError>),
}

/// The repository reports a project that is archived already with a not-found
/// error whose message mentions "archived", in any case.
pub open spec fn signals_already_archived(e: DomainError) -> bool {
    e matches DomainError::NotFound(m) && has_infix(lowercase(m@), "archived"@)
}

/// Archives a project unless it is a dry run.
pub struct ArchiveProject;

impl ArchiveProject {
    pub fn new() -> Self {
        ArchiveProject
    }

    /// A dry run reports the project archived without asking the repository;
    /// otherwise the repository is asked to archive it.
    pub fn start(&self, id: ProjectId, dry_run: bool) -> (a: ArchiveAction)
        ensures
            dry_run ==> a == ArchiveAction::Finish(Ok(ArchiveOutcome::Archived)),
            !dry_run ==> a == ArchiveAction::Archive(id),
    {
        if dry_run {
            ArchiveAction::Finish(Ok(ArchiveOutcome::Archived))
        } else {
            ArchiveAction::Archive(id)
        }
    }

    /// Reads the repository's answer: success means archived; a not-found error
    /// whose message mentions "archived" (in any case) means it already was; any
    /// other error is passed on.
    pub fn on_archived(&self, result: Result<(), DomainError>) -> (r: Result<
        ArchiveOutcome,
        DomainError,
    >)
        ensures
            result is Ok ==> r == Ok::<ArchiveOutcome, DomainError>(ArchiveOutcome::Archived),
            result matches Err(e) ==> r == (if signals_already_archived(e) {
                Ok::<ArchiveOutcome, DomainError>(ArchiveOutcome::AlreadyArchived)
            } else {
                Err::<ArchiveOutcome, DomainError>(e)
            }),
    {
        match result {
            Ok(()) => Ok(ArchiveOutcome::Archived),
            Err(DomainError::NotFound(msg)) => {
                let lower = to_lowercase(msg.as_str());
                if contains_str(lower.as_str(), "archived") {
                    Ok(ArchiveOutcome::AlreadyArchived)
                } else {
                    Err(DomainError::NotFound(msg))
                }
            },
            Err(e) => Err(e),
        }
    }
}

} // verus!
