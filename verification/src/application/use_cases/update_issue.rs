//! Updating an issue.
use vstd::prelude::*;

use crate::application::errors::ApplicationError;
use crate::domain::entities::issue::{Issue, UpdateIssueInput, WorkflowStateInfo};
use crate::domain::errors::DomainError;
use crate::domain::value_objects::issue_id::IssueId;
use crate::domain::value_objects::team_id::TeamId;
use crate::text::{join_strs, joined, lowercase, str_eq, to_lowercase, views_of_strs};

verus! {

/// No field is to change and the parent is not to be detached.
pub open spec fn changes_nothing(i: UpdateIssueInput) -> bool {
    i.title is None && i.description is None && i.state_id is None && i.priority is None
        && i.assignee_id is None && i.due_date is None && i.estimate is None && i.parent_id is None
        && !i.no_parent
}

/// Any single field of an issue update, or detaching the parent, makes the update
/// one that changes something; only an update with nothing given changes nothing.
pub proof fn lemma_every_issue_field_counts(i: UpdateIssueInput)
    ensures
        i.title is Some ==> !changes_nothing(i),
        i.description is Some ==> !changes_nothing(i),
        i.state_id is Some ==> !changes_nothing(i),
        i.priority is Some ==> !changes_nothing(i),
        i.assignee_id is Some ==> !changes_nothing(i),
        i.due_date is Some ==> !changes_nothing(i),
        i.estimate is Some ==> !changes_nothing(i),
        i.parent_id is Some ==> !changes_nothing(i),
        i.no_parent ==> !changes_nothing(i),
        i.title is None && i.description is None && i.state_id is None && i.priority is None
            && i.assignee_id is None && i.due_date is None && i.estimate is None && i.parent_id
            is None && !i.no_parent ==> changes_nothing(i),
{
}

/// The workflow state's name equals `wanted`, ignoring case.
pub open spec fn state_matches(s: WorkflowStateInfo, wanted: Seq<char>) -> bool {
    lowercase(s.name@) == lowercase(wanted)
}

/// The index of the first state from position `i` on whose name equals `wanted`,
/// ignoring case.
pub open spec fn first_match(states: Seq<WorkflowStateInfo>, wanted: Seq<char>, i: int) -> Option<
    int,
>
    decreases states.len() - i,
{
    if i < 0 || i >= states.len() {
        None
    } else if state_matches(states[i], wanted) {
        Some(i)
    } else {
        first_match(states, wanted, i + 1)
    }
}

/// The names of the workflow states, in order.
pub open spec fn state_names(states: Seq<WorkflowStateInfo>) -> Seq<Seq<char>> {
    states.map_values(|s: WorkflowStateInfo| s.name@)
}

/// The message of the error for a state that the team does not have.
pub open spec fn unknown_state_message(wanted: Seq<char>, states: Seq<WorkflowStateInfo>) -> Seq<
    char,
> {
    "--state \""@ + wanted + "\" is not valid; valid states: "@ + joined(
        state_names(states),
        ", "@,
    )
}

/// The result is the given validation error.
pub open spec fn fails_with(r: Result<Issue, ApplicationError>, m: Seq<char>) -> bool {
    r matches Err(ApplicationError::Domain(DomainError::InvalidInput(x))) && x@ == m
}

/// The next thing updating an issue needs: the issue (to learn its team), the
/// team's workflow states (to turn a state name into its id), the update itself,
/// or nothing more.
#[derive(Debug)]
pub enum UpdateIssueAction {
    Finish(Result<Issue, ApplicationError>),
    FetchIssue(AwaitIssue),
    FetchStates(AwaitStates),
    Update(IssueId, UpdateIssueInput),
}

/// An update waiting for the issue `id`, whose team names the states.
#[derive(Debug)]
pub struct AwaitIssue {
    pub id: IssueId,
    pub input: UpdateIssueInput,
    pub state_name: String,
    pub dry_run: bool,
}

/// An update waiting for the workflow states of team `team_id`.
#[derive(Debug)]
pub struct AwaitStates {
    pub id: IssueId,
    pub input: UpdateIssueInput,
    pub state_name: String,
    pub dry_run: bool,
    pub team_id: TeamId,
}

/// Validates an issue update, turns a state name into the state's id, then updates.
pub struct UpdateIssue;

impl UpdateIssue {
    pub fn new() -> Self {
        UpdateIssue
    }

    /// Refuses `--parent` together with `--no-parent`, an update that changes
    /// nothing, and an empty id, in that order. A state given by name is resolved
    /// first (through the issue's team); otherwise a dry run stops with an error
    /// and a real run updates.
    pub fn start(&self, id: String, input: UpdateIssueInput, dry_run: bool) -> (a:
        UpdateIssueAction)
        ensures
            input.parent_id is Some && input.no_parent ==> (a matches UpdateIssueAction::Finish(r)
                && fails_with(r, "--parent and --no-parent are mutually exclusive"@)),
            !(input.parent_id is Some && input.no_parent) && changes_nothing(input) ==> (
            a matches UpdateIssueAction::Finish(r) && fails_with(
                r,
                "at least one update flag required"@,
            )),
            !(input.parent_id is Some && input.no_parent) && !changes_nothing(input) && id@.len()
                == 0 ==> (a matches UpdateIssueAction::Finish(r) && fails_with(
                r,
                "invalid input: issue id cannot be empty"@,
            )),
            !(input.parent_id is Some && input.no_parent) && !changes_nothing(input) && id@.len()
                > 0 ==> (if input.state_id is Some {
                a matches UpdateIssueAction::FetchIssue(w) && w.id@ == id@ && w.input == input
                    && w.state_name == input.state_id->0 && w.dry_run == dry_run
            } else if dry_run {
                a matches UpdateIssueAction::Finish(r) && fails_with(
                    r,
                    "dry-run: issue not updated"@,
                )
            } else {
                a matches UpdateIssueAction::Update(i, inp) && i@ == id@ && inp == input
            }),
    {
        if input.parent_id.is_some() && input.no_parent {
            return UpdateIssueAction::Finish(
                Err(
                    ApplicationError::Domain(
                        DomainError::InvalidInput(
                            String::from_str("--parent and --no-parent are mutually exclusive"),
                        ),
                    ),
                ),
            );
        }
        let all_none = input.title.is_none() && input.description.is_none()
            && input.state_id.is_none() && input.priority.is_none() && input.assignee_id.is_none()
            && input.due_date.is_none() && input.estimate.is_none() && input.parent_id.is_none()
            && !input.no_parent;
        if all_none {
            return UpdateIssueAction::Finish(
                Err(
                    ApplicationError::Domain(
                        DomainError::InvalidInput(
                            String::from_str("at least one update flag required"),
                        ),
                    ),
                ),
            );
        }
        proof {
            reveal_strlit("invalid input: ");
            reveal_strlit("issue id cannot be empty");
            reveal_strlit("invalid input: issue id cannot be empty");
            assert("invalid input: "@ + "issue id cannot be empty"@
                =~= "invalid input: issue id cannot be empty"@);
        }
        let issue_id = match IssueId::new(id) {
            Ok(i) => i,
            Err(e) => {
                return UpdateIssueAction::Finish(
                    Err(ApplicationError::Domain(DomainError::InvalidInput(e.to_string()))),
                );
            },
        };
        match &input.state_id {
            Some(name) => {
                let state_name = name.clone();
                return UpdateIssueAction::FetchIssue(
                    AwaitIssue { id: issue_id, input, state_name, dry_run },
                );
            },
            None => {},
        }
        if dry_run {
            return UpdateIssueAction::Finish(
                Err(
                    ApplicationError::Domain(
                        DomainError::InvalidInput(String::from_str("dry-run: issue not updated")),
                    ),
                ),
            );
        }
        UpdateIssueAction::Update(issue_id, input)
    }

    /// The repository's answer, its error wrapped as a domain error.
    pub fn on_updated(&self, result: Result<Issue, DomainError>) -> (r: Result<Issue, ApplicationError>)
        ensures
            result matches Ok(i) ==> r == Ok::<Issue, ApplicationError>(i),
            result matches Err(e) ==> r == Err::<Issue, ApplicationError>(ApplicationError::Domain(e)),
    {
        match result {
            Ok(i) => Ok(i),
            Err(e) => Err(ApplicationError::Domain(e)),
        }
    }
}

impl AwaitIssue {
    /// After the issue was fetched, its team's workflow states are asked for; a
    /// failed fetch stops with that error.
    pub fn on_issue(self, fetched: Result<Issue, DomainError>) -> (a: UpdateIssueAction)
        ensures
            fetched matches Err(e) ==> a == UpdateIssueAction::Finish(
                Err(ApplicationError::Domain(e)),
            ),
            fetched matches Ok(issue) ==> (a matches UpdateIssueAction::FetchStates(w) && w.id
                == self.id && w.input == self.input && w.state_name == self.state_name && w.dry_run
                == self.dry_run && w.team_id@ == issue.team_id@),
    {
        match fetched {
            Err(e) => UpdateIssueAction::Finish(Err(ApplicationError::Domain(e))),
            Ok(issue) => {
                let team_id = issue.team_id().clone();
                UpdateIssueAction::FetchStates(
                    AwaitStates {
                        id: self.id,
                        input: self.input,
                        state_name: self.state_name,
                        dry_run: self.dry_run,
                        team_id,
                    },
                )
            },
        }
    }
}

impl AwaitStates {
    /// With the team's states: the first whose name equals the wanted one
    /// (ignoring case) gives the state id; then a dry run stops with an error and
    /// a real run updates. No such state stops with an error listing the names.
    pub fn on_states(self, listed: Result<Vec<WorkflowStateInfo>, DomainError>) -> (a:
        UpdateIssueAction)
        ensures
            listed matches Err(e) ==> a == UpdateIssueAction::Finish(
                Err(ApplicationError::Domain(e)),
            ),
            listed matches Ok(states) ==> match first_match(states@, self.state_name@, 0) {
                Some(j) => if self.dry_run {
                    a matches UpdateIssueAction::Finish(r) && fails_with(
                        r,
                        "dry-run: issue not updated"@,
                    )
                } else {
                    a matches UpdateIssueAction::Update(i, inp) && i == self.id && inp.state_id
                        == Some(states@[j].id) && inp.title == self.input.title && inp.description
                        == self.input.description && inp.priority == self.input.priority
                        && inp.assignee_id == self.input.assignee_id && inp.due_date
                        == self.input.due_date && inp.estimate == self.input.estimate
                        && inp.parent_id == self.input.parent_id && inp.no_parent
                        == self.input.no_parent
                },
                None => a matches UpdateIssueAction::Finish(r) && fails_with(
                    r,
                    unknown_state_message(self.state_name@, states@),
                ),
            },
    {
        let states = match listed {
            Err(e) => {
                return UpdateIssueAction::Finish(Err(ApplicationError::Domain(e)));
            },
            Ok(s) => s,
        };
        let wanted = to_lowercase(self.state_name.as_str());
        let mut j: usize = 0;
        while j < states.len()
            invariant
                listed == Ok::<Vec<WorkflowStateInfo>, DomainError>(states),
                j <= states@.len(),
                wanted@ == lowercase(self.state_name@),
                first_match(states@, self.state_name@, 0) == first_match(
                    states@,
                    self.state_name@,
                    j as int,
                ),
            decreases states@.len() - j,
        {
            let l = to_lowercase(states[j].name.as_str());
            if str_eq(l.as_str(), wanted.as_str()) {
                assert(state_matches(states@[j as int], self.state_name@));
                let mut input = self.input;
                input.state_id = Some(states[j].id.clone());
                if self.dry_run {
                    return UpdateIssueAction::Finish(
                        Err(
                            ApplicationError::Domain(
                                DomainError::InvalidInput(
                                    String::from_str("dry-run: issue not updated"),
                                ),
                            ),
                        ),
                    );
                }
                return UpdateIssueAction::Update(self.id, input);
            }
            j = j + 1;
        }
        let mut names: Vec<&str> = Vec::new();
        let mut k: usize = 0;
        while k < states.len()
            invariant
                k <= states@.len(),
                names@.len() == k,
                views_of_strs(names@) == state_names(states@).take(k as int),
            decreases states@.len() - k,
        {
            names.push(states[k].name.as_str());
            proof {
                assert(views_of_strs(names@) =~= state_names(states@).take((k + 1) as int));
            }
            k = k + 1;
        }
        proof {
            assert(state_names(states@).take(states@.len() as int) =~= state_names(states@));
        }
        let listed_names = join_strs(&names, ", ");
        UpdateIssueAction::Finish(
            Err(
                ApplicationError::Domain(
                    DomainError::InvalidInput(
                        String::from_str("--state \"").concat(self.state_name.as_str()).concat(
                            "\" is not valid; valid states: ",
                        ).concat(listed_names.as_str()),
                    ),
                ),
            ),
        )
    }
}

} // verus!
