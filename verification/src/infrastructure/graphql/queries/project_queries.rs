//! Project queries, GraphQL errors, and the retry policy shared by all requests.
use vstd::prelude::*;

use crate::domain::errors::DomainError;
use crate::domain::value_objects::project_state::ProjectState;
use crate::text::{contains_str, has_infix, lowercase, str_eq, to_lowercase};

verus! {

/// A GraphQL response: data, errors, or both.
#[derive(Debug)]
pub struct GraphqlResponse<T> {
    pub data: Option<T>,
    pub errors: Option<Vec<GraphqlError>>,
}

/// One GraphQL error.
#[derive(Debug, PartialEq, Eq)]
pub struct GraphqlError {
    pub message: String,
    pub extensions: Option<GraphqlErrorExtension>,
}

/// The machine-readable part of a GraphQL error.
#[derive(Debug, PartialEq, Eq)]
pub struct GraphqlErrorExtension {
    pub error_type: Option<String>,
}

/// The error's extension names the given type.
pub open spec fn error_type_is(e: GraphqlError, t: Seq<char>) -> bool {
    e.extensions matches Some(x) && x.error_type matches Some(s) && s@ == t
}

/// Whether the extension of `e` names type `t`.
fn error_type_eq(e: &GraphqlError, t: &str) -> (b: bool)
    ensures
        b == error_type_is(*e, t@),
{
    match &e.extensions {
        Some(x) => match &x.error_type {
            Some(s) => str_eq(s.as_str(), t),
            None => false,
        },
        None => false,
    }
}

impl GraphqlError {
    /// The API reports throttling with the error type `RATELIMITED`.
    pub fn is_rate_limited(&self) -> (b: bool)
        ensures
            b == error_type_is(*self, "RATELIMITED"@),
    {
        error_type_eq(self, "RATELIMITED")
    }
}

/// `e` is the domain error that the list of GraphQL errors stands for, judged by
/// the first error: throttling, then authentication, then a message that mentions
/// "not found" (in any case); an empty list is an unknown error.
pub open spec fn maps_errors_to(errors: Seq<GraphqlError>, e: DomainError) -> bool {
    if errors.len() == 0 {
        e matches DomainError::InvalidInput(m) && m@ == "unknown GraphQL error"@
    } else if error_type_is(errors[0], "RATELIMITED"@) {
        e matches DomainError::InvalidInput(m) && m@ == "rate limited by Linear API"@
    } else if error_type_is(errors[0], "UNAUTHENTICATED"@) {
        e matches DomainError::InvalidInput(m) && m@ == "authentication error"@
    } else if has_infix(lowercase(errors[0].message@), "not found"@) {
        e == DomainError::NotFound(errors[0].message)
    } else {
        e == DomainError::InvalidInput(errors[0].message)
    }
}

/// Turns the API's errors into a domain error, judged by the first one.
pub fn map_errors(errors: Vec<GraphqlError>) -> (r: DomainError)
    ensures
        maps_errors_to(errors@, r),
{
    if errors.len() == 0 {
        return DomainError::InvalidInput(String::from_str("unknown GraphQL error"));
    }
    let first = &errors[0];
    if first.is_rate_limited() {
        return DomainError::InvalidInput(String::from_str("rate limited by Linear API"));
    }
    if error_type_eq(first, "UNAUTHENTICATED") {
        return DomainError::InvalidInput(String::from_str("authentication error"));
    }
    let lower = to_lowercase(first.message.as_str());
    if contains_str(lower.as_str(), "not found") {
        return DomainError::NotFound(first.message.clone());
    }
    DomainError::InvalidInput(first.message.clone())
}

/// The response's first error reports throttling.
pub open spec fn spec_first_error_rate_limited<T>(resp: GraphqlResponse<T>) -> bool {
    resp.errors matches Some(es) && es@.len() > 0 && error_type_is(es@[0], "RATELIMITED"@)
}

/// Whether the response's first error reports throttling.
pub fn first_error_rate_limited<T>(resp: &GraphqlResponse<T>) -> (b: bool)
    ensures
        b == spec_first_error_rate_limited(*resp),
{
    match &resp.errors {
        Some(es) => es.len() > 0 && es[0].is_rate_limited(),
        None => false,
    }
}

/// The data of a response: errors, when present, are turned into a domain error;
/// missing data is reported with `empty_message`.
pub fn take_data<T>(resp: GraphqlResponse<T>, empty_message: &str) -> (r: Result<T, DomainError>)
    ensures
        resp.errors matches Some(es) ==> (r matches Err(e) && maps_errors_to(es@, e)),
        resp.errors is None && resp.data is None ==> (r matches Err(DomainError::InvalidInput(m))
            && m@ == empty_message@),
        resp.errors is None ==> (resp.data matches Some(d) ==> r == Ok::<T, DomainError>(d)),
{
    match resp.errors {
        Some(es) => {
            let e = map_errors(es);
            Err(e)
        },
        None => match resp.data {
            Some(d) => Ok(d),
            None => Err(DomainError::InvalidInput(String::from_str(empty_message))),
        },
    }
}

/// Pagination data of a connection.
#[derive(Debug, PartialEq, Eq)]
pub struct PageInfoNode {
    pub has_next_page: bool,
    pub end_cursor: Option<String>,
}

/// The orders in which a listing can be sorted.
#[derive(Debug, Clone, Copy, PartialEq, Eq, Structural)]
pub enum PaginationOrderBy {
    UpdatedAt,
    CreatedAt,
}

/// Variables of the workspace-wide project listing.
#[derive(Debug)]
pub struct ProjectsVariables {
    pub first: i32,
    pub after: Option<String>,
}

/// Variables of a team's project listing.
#[derive(Debug)]
pub struct TeamProjectsVariables {
    pub team_id: String,
    pub first: i32,
    pub after: Option<String>,
}

/// Variables of the single-project query.
#[derive(Debug)]
pub struct GetProjectVariables {
    pub id: String,
}

/// A filter on projects by slug.
#[derive(Debug)]
pub struct ProjectFilter {
    pub slug_id: Option<StringComparator>,
}

/// A string equality comparator.
#[derive(Debug)]
pub struct StringComparator {
    pub eq: Option<String>,
}

/// Variables of the slug lookup.
#[derive(Debug)]
pub struct SlugLookupVariables {
    pub filter: ProjectFilter,
}

/// The request to list projects: all of the workspace's, or one team's.
#[derive(Debug)]
pub enum ProjectListRequest {
    All(ProjectsVariables),
    Team(TeamProjectsVariables),
}

/// The variables of a project listing: by team when a team is given.
pub fn project_list_request(first: i32, after: Option<String>, team_id: Option<&str>) -> (r:
    ProjectListRequest)
    ensures
        team_id matches Some(t) ==> (r matches ProjectListRequest::Team(v) && v.team_id@ == t@
            && v.first == first && v.after == after),
        team_id is None ==> (r matches ProjectListRequest::All(v) && v.first == first && v.after
            == after),
{
    match team_id {
        Some(t) => ProjectListRequest::Team(
            TeamProjectsVariables { team_id: String::from_str(t), first, after },
        ),
        None => ProjectListRequest::All(ProjectsVariables { first, after }),
    }
}

/// The variables that look a project up by its slug.
pub fn slug_lookup_variables(slug: &str) -> (v: SlugLookupVariables)
    ensures
        v.filter.slug_id matches Some(c) && c.eq matches Some(x) && x@ == slug@,
{
    SlugLookupVariables {
        filter: ProjectFilter { slug_id: Some(StringComparator { eq: Some(String::from_str(slug)) }) },
    }
}

/// A project found by slug: its id.
#[derive(Debug)]
pub struct SlugProjectNode {
    pub id: String,
}

/// The id of the first project that the slug lookup found; none found means the
/// slug names no project.
pub fn first_slug_match(nodes: Vec<SlugProjectNode>, slug: &str) -> (r: Result<String, DomainError>)
    ensures
        nodes@.len() > 0 ==> r == Ok::<String, DomainError>(nodes@[0].id),
        nodes@.len() == 0 ==> (r matches Err(DomainError::NotFound(m)) && m@ == slug@),
{
    let mut nodes = nodes;
    if nodes.len() == 0 {
        return Err(DomainError::NotFound(String::from_str(slug)));
    }
    let first = nodes.remove(0);
    Ok(first.id)
}

/// The project that a lookup by id returned; none means no project has that id.
pub fn project_or_not_found<T>(project: Option<T>, id: &str) -> (r: Result<T, DomainError>)
    ensures
        project matches Some(p) ==> r == Ok::<T, DomainError>(p),
        project is None ==> (r matches Err(DomainError::NotFound(m)) && m@ == id@),
{
    match project {
        Some(p) => Ok(p),
        None => Err(DomainError::NotFound(String::from_str(id))),
    }
}

/// The categories of project statuses that a workspace defines.
#[derive(Debug, Clone, Copy, PartialEq, Eq, Structural)]
pub enum ProjectStatusType {
    Backlog,
    Canceled,
    Completed,
    Paused,
    Planned,
    Started,
}

/// The status category that a project state belongs to.
pub open spec fn category_of_state(st: ProjectState) -> ProjectStatusType {
    match st {
        ProjectState::Planned => ProjectStatusType::Planned,
        ProjectState::Started => ProjectStatusType::Started,
        ProjectState::Paused => ProjectStatusType::Paused,
        ProjectState::Completed => ProjectStatusType::Completed,
        ProjectState::Cancelled => ProjectStatusType::Canceled,
    }
}

/// Every project state's own name names its status category, so an update to any
/// state finds a category to look up; the American spelling "canceled" names the
/// cancelled category too, and "backlog" names the backlog category.
pub proof fn lemma_state_names_have_categories(st: ProjectState)
    ensures
        status_type_named(st.name()) == Some(category_of_state(st)),
        status_type_named("canceled"@) == Some(ProjectStatusType::Canceled),
        status_type_named("backlog"@) == Some(ProjectStatusType::Backlog),
{
    reveal_strlit("cancelled");
    reveal_strlit("canceled");
    reveal_strlit("backlog");
    reveal_strlit("completed");
    reveal_strlit("paused");
    reveal_strlit("planned");
    reveal_strlit("started");
    assert("canceled"@.len() != "cancelled"@.len());
    assert("completed"@[1] != "cancelled"@[1] && "completed"@.len() != "canceled"@.len()
        && "completed"@[0] != "backlog"@[0]);
    assert("paused"@[0] != "cancelled"@[0] && "paused"@[0] != "canceled"@[0] && "paused"@[0]
        != "backlog"@[0] && "paused"@[0] != "completed"@[0]);
    assert("planned"@[0] != "cancelled"@[0] && "planned"@[0] != "canceled"@[0] && "planned"@[0]
        != "backlog"@[0] && "planned"@[0] != "completed"@[0] && "planned"@[1] != "paused"@[1]);
    assert("started"@[0] != "cancelled"@[0] && "started"@[0] != "canceled"@[0] && "started"@[0]
        != "backlog"@[0] && "started"@[0] != "completed"@[0] && "started"@[0] != "paused"@[0]
        && "started"@[0] != "planned"@[0]);
}

/// A status of the workspace: its id and category.
#[derive(Debug)]
pub struct ProjectStatusNode {
    pub id: String,
    pub status_type: ProjectStatusType,
}

/// The status category that a state name stands for.
pub open spec fn status_type_named(s: Seq<char>) -> Option<ProjectStatusType> {
    if s == "cancelled"@ || s == "canceled"@ {
        Some(ProjectStatusType::Canceled)
    } else if s == "backlog"@ {
        Some(ProjectStatusType::Backlog)
    } else if s == "completed"@ {
        Some(ProjectStatusType::Completed)
    } else if s == "paused"@ {
        Some(ProjectStatusType::Paused)
    } else if s == "planned"@ {
        Some(ProjectStatusType::Planned)
    } else if s == "started"@ {
        Some(ProjectStatusType::Started)
    } else {
        None
    }
}

/// The status category for a state name (exact, lower-case spelling).
pub fn status_type_for(state_type: &str) -> (r: Result<ProjectStatusType, DomainError>)
    ensures
        status_type_named(state_type@) matches Some(t) ==> r == Ok::<
            ProjectStatusType,
            DomainError,
        >(t),
        status_type_named(state_type@) is None ==> (r matches Err(DomainError::InvalidInput(m))
            && m@ == "unknown project status type: '"@ + state_type@ + "'"@),
{
    if str_eq(state_type, "cancelled") || str_eq(state_type, "canceled") {
        Ok(ProjectStatusType::Canceled)
    } else if str_eq(state_type, "backlog") {
        Ok(ProjectStatusType::Backlog)
    } else if str_eq(state_type, "completed") {
        Ok(ProjectStatusType::Completed)
    } else if str_eq(state_type, "paused") {
        Ok(ProjectStatusType::Paused)
    } else if str_eq(state_type, "planned") {
        Ok(ProjectStatusType::Planned)
    } else if str_eq(state_type, "started") {
        Ok(ProjectStatusType::Started)
    } else {
        Err(
            DomainError::InvalidInput(
                String::from_str("unknown project status type: '").concat(state_type).concat("'"),
            ),
        )
    }
}

/// The index of the first status of category `t` from position `i` on.
pub open spec fn first_status_of(statuses: Seq<ProjectStatusNode>, t: ProjectStatusType, i: int) -> Option<int>
    decreases statuses.len() - i,
{
    if i < 0 || i >= statuses.len() {
        None
    } else if statuses[i].status_type == t {
        Some(i)
    } else {
        first_status_of(statuses, t, i + 1)
    }
}

/// The id of the workspace's first status of the given category.
pub fn find_status_id(statuses: Vec<ProjectStatusNode>, target: ProjectStatusType, state_type: &str) -> (r: Result<String, DomainError>)
    ensures
        first_status_of(statuses@, target, 0) matches Some(i) ==> r == Ok::<String, DomainError>(
            statuses@[i].id,
        ),
        first_status_of(statuses@, target, 0) is None ==> (r matches Err(
            DomainError::InvalidInput(m),
        ) && m@ == "no project status of type '"@ + state_type@ + "' found in workspace"@),
{
    let mut i: usize = 0;
    while i < statuses.len()
        invariant
            i <= statuses@.len(),
            first_status_of(statuses@, target, 0) == first_status_of(statuses@, target, i as int),
        decreases statuses@.len() - i,
    {
        if statuses[i].status_type == target {
            return Ok(statuses[i].id.clone());
        }
        i = i + 1;
    }
    Err(
        DomainError::InvalidInput(
            String::from_str("no project status of type '").concat(state_type).concat(
                "' found in workspace",
            ),
        ),
    )
}

/// The error that an HTTP status stands for before the body is read: 429 is
/// throttling.
pub fn http_status_error(status: u16) -> (r: Option<DomainError>)
    ensures
        status == 429 ==> (r matches Some(DomainError::InvalidInput(m)) && m@
            == "rate limited (HTTP 429)"@),
        status != 429 ==> r is None,
{
    if status == 429 {
        Some(DomainError::InvalidInput(String::from_str("rate limited (HTTP 429)")))
    } else {
        None
    }
}

/// The number of a request attempt, counted from 0; there are at most three.
pub struct RetryAttempt {
    attempt: u32,
}

/// After a response: hand it over, or wait and send again.
pub enum RetryDecision {
    Accept,
    Wait { seconds: u64, next: RetryAttempt },
}

/// After a failed request: give up with the error, or wait and send again.
pub enum FailureDecision {
    Fail(DomainError),
    Wait { seconds: u64, next: RetryAttempt },
}

/// The pause before attempt `a + 1`: `2^a` seconds.
pub open spec fn backoff_seconds(a: u32) -> u64 {
    if a == 0 {
        1
    } else {
        2
    }
}

impl RetryAttempt {
    #[verifier::type_invariant]
    closed spec fn inv(self) -> bool {
        self.attempt < 3
    }

    /// The attempt's number.
    pub closed spec fn spec_number(self) -> u32 {
        self.attempt
    }

    /// The first attempt.
    pub fn first() -> (r: RetryAttempt)
        ensures
            r.spec_number() == 0,
    {
        RetryAttempt { attempt: 0 }
    }

    /// The attempt's number, which is below 3.
    pub fn number(&self) -> (n: u32)
        ensures
            n == self.spec_number(),
            n < 3,
    {
        proof {
            use_type_invariant(self);
        }
        self.attempt
    }

    /// A throttled response is retried after `2^attempt` seconds unless this was
    /// the third attempt; any other response is handed over.
    pub fn on_response(self, rate_limited: bool) -> (d: RetryDecision)
        ensures
            rate_limited && self.spec_number() < 2 ==> (d matches RetryDecision::Wait {
                seconds,
                next,
            } && seconds == backoff_seconds(self.spec_number()) && next.spec_number()
                == self.spec_number() + 1),
            !(rate_limited && self.spec_number() < 2) ==> d is Accept,
    {
        proof {
            use_type_invariant(&self);
        }
        if rate_limited && self.attempt < 2 {
            let seconds: u64 = if self.attempt == 0 {
                1
            } else {
                2
            };
            RetryDecision::Wait { seconds, next: RetryAttempt { attempt: self.attempt + 1 } }
        } else {
            RetryDecision::Accept
        }
    }

    /// A failed request is retried after `2^attempt` seconds unless this was the
    /// third attempt, whose error is final.
    pub fn on_failure(self, error: DomainError) -> (d: FailureDecision)
        ensures
            self.spec_number() < 2 ==> (d matches FailureDecision::Wait { seconds, next }
                && seconds == backoff_seconds(self.spec_number()) && next.spec_number()
                == self.spec_number() + 1),
            self.spec_number() >= 2 ==> d == FailureDecision::Fail(error),
    {
        proof {
            use_type_invariant(&self);
        }
        if self.attempt < 2 {
            let seconds: u64 = if self.attempt == 0 {
                1
            } else {
                2
            };
            FailureDecision::Wait { seconds, next: RetryAttempt { attempt: self.attempt + 1 } }
        } else {
            FailureDecision::Fail(error)
        }
    }
}

} // verus!
