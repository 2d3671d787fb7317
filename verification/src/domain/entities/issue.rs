//! Issues, and the inputs of the issue operations.
use vstd::prelude::*;

use crate::domain::errors::DomainError;
use crate::domain::value_objects::issue_id::IssueId;
use crate::domain::value_objects::label_id::LabelId;
use crate::domain::value_objects::priority::Priority;
use crate::domain::value_objects::project_id::ProjectId;
use crate::domain::value_objects::team_id::TeamId;
use crate::domain::value_objects::user_id::UserId;
use crate::domain::value_objects::workflow_state_ref::WorkflowStateRef;

verus! {

/// A child issue as its parent lists it.
#[derive(Debug)]
pub struct SubIssueRef {
    pub id: IssueId,
    pub title: String,
    pub identifier: String,
}

/// One workflow state of a team.
#[derive(Debug, PartialEq, Eq)]
pub struct WorkflowStateInfo {
    pub id: String,
    pub name: String,
    pub state_type: String,
}

/// An issue. The estimate, a double in the API, is held as its IEEE-754 bit pattern.
/// An issue built by `Issue::new` has a non-empty title.
#[derive(Debug)]
pub struct Issue {
    pub id: IssueId,
    pub identifier: String,
    pub title: String,
    pub description: Option<String>,
    pub state: WorkflowStateRef,
    pub priority: Priority,
    pub team_id: TeamId,
    pub assignee_id: Option<UserId>,
    pub assignee_name: Option<String>,
    pub label_ids: Vec<LabelId>,
    pub due_date: Option<String>,
    pub estimate: Option<u64>,
    pub parent_id: Option<IssueId>,
    pub parent_title: Option<String>,
    pub sub_issues: Vec<SubIssueRef>,
    pub created_at: String,
    pub updated_at: String,
}

impl Issue {
    /// The issue's identifier.
    pub open spec fn spec_id(&self) -> Seq<char> {
        self.id@
    }

    /// The issue's title.
    pub open spec fn spec_title(&self) -> Seq<char> {
        self.title@
    }

    /// The issue's workflow state.
    pub open spec fn spec_state(&self) -> WorkflowStateRef {
        self.state
    }

    /// The issue's priority.
    pub open spec fn spec_priority(&self) -> Priority {
        self.priority
    }

    /// The issue's team.
    pub open spec fn spec_team_id(&self) -> Seq<char> {
        self.team_id@
    }

    /// Builds an issue; an empty title is refused.
    #[allow(clippy::too_many_arguments)]
    pub fn new(
        id: IssueId,
        identifier: String,
        title: String,
        description: Option<String>,
        state: WorkflowStateRef,
        priority: Priority,
        team_id: TeamId,
        assignee_id: Option<UserId>,
        assignee_name: Option<String>,
        label_ids: Vec<LabelId>,
        due_date: Option<String>,
        estimate: Option<u64>,
        parent_id: Option<IssueId>,
        parent_title: Option<String>,
        sub_issues: Vec<SubIssueRef>,
        created_at: String,
        updated_at: String,
    ) -> (r: Result<Self, DomainError>)
        ensures
            title@.len() == 0 ==> (r matches Err(DomainError::InvalidInput(m)) && m@
                == "issue title cannot be empty"@),
            title@.len() > 0 ==> (r matches Ok(i) && i.spec_id() == id@ && i.identifier
                == identifier && i.spec_title() == title@ && i.description == description
                && i.spec_state() == state && i.spec_priority() == priority && i.spec_team_id()
                == team_id@ && i.assignee_id == assignee_id && i.assignee_name == assignee_name
                && i.label_ids == label_ids && i.due_date == due_date && i.estimate == estimate
                && i.parent_id == parent_id && i.parent_title == parent_title && i.sub_issues
                == sub_issues && i.created_at == created_at && i.updated_at == updated_at),
    {
        if title.as_str().is_empty() {
            return Err(DomainError::InvalidInput(String::from_str("issue title cannot be empty")));
        }
        Ok(
            Issue {
                id,
                identifier,
                title,
                description,
                state,
                priority,
                team_id,
                assignee_id,
                assignee_name,
                label_ids,
                due_date,
                estimate,
                parent_id,
                parent_title,
                sub_issues,
                created_at,
                updated_at,
            },
        )
    }

    /// The issue's identifier.
    pub fn id(&self) -> (r: &IssueId)
        ensures
            r@ == self.spec_id(),
    {
        &self.id
    }

    /// The issue's title.
    pub fn title(&self) -> (r: &str)
        ensures
            r@ == self.spec_title(),
    {
        self.title.as_str()
    }

    /// The issue's workflow state.
    pub fn state(&self) -> (r: &WorkflowStateRef)
        ensures
            *r == self.spec_state(),
    {
        &self.state
    }

    /// The issue's priority.
    pub fn priority(&self) -> (r: Priority)
        ensures
            r == self.spec_priority(),
    {
        self.priority
    }

    /// The issue's team.
    pub fn team_id(&self) -> (r: &TeamId)
        ensures
            r@ == self.spec_team_id(),
    {
        &self.team_id
    }
}

/// What to list: filters, page size and position.
#[derive(Debug)]
pub struct ListIssuesInput {
    pub team_id: Option<TeamId>,
    pub project_id: Option<ProjectId>,
    pub state_name: Option<String>,
    pub assignee_id: Option<UserId>,
    pub priority: Option<Priority>,
    pub label_ids: Vec<LabelId>,
    pub limit: i32,
    pub cursor: Option<String>,
    pub all_pages: bool,
    pub title_contains: Option<String>,
}

/// One page of issues, or all of them.
#[derive(Debug)]
pub struct ListIssuesResult {
    pub items: Vec<Issue>,
    pub next_cursor: Option<String>,
    pub has_next_page: bool,
}

/// The fields of a new issue. The estimate is held as its IEEE-754 bit pattern.
#[derive(Debug)]
pub struct CreateIssueInput {
    pub title: String,
    pub team_id: TeamId,
    pub project_id: ProjectId,
    pub description: Option<String>,
    pub priority: Option<Priority>,
    pub assignee_id: Option<UserId>,
    pub label_ids: Vec<LabelId>,
    pub due_date: Option<String>,
    pub estimate: Option<u64>,
    pub parent_id: Option<IssueId>,
}

/// The fields to change on an issue; `no_parent` detaches it from its parent.
/// The estimate is held as its IEEE-754 bit pattern.
#[derive(Debug)]
pub struct UpdateIssueInput {
    pub title: Option<String>,
    pub description: Option<String>,
    pub state_id: Option<String>,
    pub priority: Option<Priority>,
    pub assignee_id: Option<UserId>,
    pub due_date: Option<String>,
    pub estimate: Option<u64>,
    pub parent_id: Option<IssueId>,
    pub no_parent: bool,
}

} // verus!
