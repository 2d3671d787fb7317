//! Issue queries: the filter built from a listing request, and the nodes returned.
use vstd::prelude::*;

use crate::domain::entities::issue::ListIssuesInput;
use crate::domain::value_objects::label_id::LabelId;
use crate::infrastructure::graphql::queries::project_queries::PageInfoNode;

verus! {

/// Compares an id with one value or a list.
#[derive(Debug)]
pub struct IdComparatorInput {
    pub eq: Option<String>,
    pub in_list: Option<Vec<String>>,
}

/// Compares an issue id with one value.
#[derive(Debug)]
pub struct IssueIdComparatorInput {
    pub eq: Option<String>,
}

/// Compares a string: exactly, ignoring case, or by containment ignoring case.
#[derive(Debug)]
pub struct StringComparatorInput {
    pub eq: Option<String>,
    pub eq_ignore_case: Option<String>,
    pub contains_ignore_case: Option<String>,
}

/// Compares a number with one value. The API takes a float; the only values
/// compared are priority numbers, held here as integers.
#[derive(Debug)]
pub struct NullableNumberComparatorInput {
    pub eq: Option<u8>,
}

/// Filters teams by id.
#[derive(Debug)]
pub struct TeamFilterInput {
    pub id: Option<IdComparatorInput>,
}

/// Filters projects by id.
#[derive(Debug)]
pub struct ProjectFilterInput {
    pub id: Option<IdComparatorInput>,
}

/// Filters workflow states by name and team.
#[derive(Debug)]
pub struct StateFilterInput {
    pub name: Option<StringComparatorInput>,
    pub team: Option<TeamFilterInput>,
}

/// Filters assignees by id.
#[derive(Debug)]
pub struct AssigneeFilterInput {
    pub id: Option<IdComparatorInput>,
}

/// Filters labels by id.
#[derive(Debug)]
pub struct IssueLabelFilterInput {
    pub id: Option<IdComparatorInput>,
}

/// Requires some label of the issue to match.
#[derive(Debug)]
pub struct LabelCollectionFilterInput {
    pub some: Option<IssueLabelFilterInput>,
}

/// Filters issues; every condition given must hold, those in `and` included.
#[derive(Debug)]
pub struct IssueFilterInput {
    pub team: Option<TeamFilterInput>,
    pub project: Option<ProjectFilterInput>,
    pub state: Option<StateFilterInput>,
    pub assignee: Option<AssigneeFilterInput>,
    pub priority: Option<NullableNumberComparatorInput>,
    pub labels: Option<LabelCollectionFilterInput>,
    pub id: Option<IssueIdComparatorInput>,
    pub title: Option<StringComparatorInput>,
    pub and: Option<Vec<IssueFilterInput>>,
}

/// The comparator matches exactly the id `v`.
pub open spec fn id_is(c: Option<IdComparatorInput>, v: Seq<char>) -> bool {
    c matches Some(x) && x.eq matches Some(e) && e@ == v && x.in_list is None
}

/// The label filter requires a label with id `v`.
pub open spec fn label_filter_is(f: Option<LabelCollectionFilterInput>, v: Seq<char>) -> bool {
    f matches Some(x) && x.some matches Some(l) && id_is(l.id, v)
}

/// The filter holds only the condition of having a label with id `v`.
pub open spec fn only_label(f: IssueFilterInput, v: Seq<char>) -> bool {
    &&& label_filter_is(f.labels, v)
    &&& f.team is None && f.project is None && f.state is None && f.assignee is None
    &&& f.priority is None && f.id is None && f.title is None && f.and is None
}

/// The title filter that a listing asks for: containment, ignoring case, of a
/// non-empty text.
pub open spec fn wants_title(input: ListIssuesInput) -> bool {
    input.title_contains matches Some(t) && t@.len() > 0
}

/// The listing asks for no condition at all.
pub open spec fn filters_nothing(input: ListIssuesInput) -> bool {
    input.team_id is None && input.project_id is None && input.state_name is None
        && input.assignee_id is None && input.priority is None && input.label_ids@.len() == 0
        && !wants_title(input)
}

/// Each condition a listing gives (team, project, state, assignee, priority, a
/// label, a non-empty title text) makes it a filtered listing on its own; only a
/// listing that gives none of them filters nothing.
pub proof fn lemma_every_listing_condition_counts(input: ListIssuesInput)
    ensures
        input.team_id is Some ==> !filters_nothing(input),
        input.project_id is Some ==> !filters_nothing(input),
        input.state_name is Some ==> !filters_nothing(input),
        input.assignee_id is Some ==> !filters_nothing(input),
        input.priority is Some ==> !filters_nothing(input),
        input.label_ids@.len() > 0 ==> !filters_nothing(input),
        (input.title_contains matches Some(t) && t@.len() > 0) ==> !filters_nothing(input),
        input.team_id is None && input.project_id is None && input.state_name is None
            && input.assignee_id is None && input.priority is None && input.label_ids@.len() == 0
            && (input.title_contains matches Some(t) ==> t@.len() == 0) ==> filters_nothing(input),
{
}

/// The team condition of the filter follows the listing's team.
pub open spec fn team_part(f: IssueFilterInput, input: ListIssuesInput) -> bool {
    match input.team_id {
        Some(t) => f.team matches Some(x) && id_is(x.id, t@),
        None => f.team is None,
    }
}

/// The project condition of the filter follows the listing's project (its id or
/// slug, as given).
pub open spec fn project_part(f: IssueFilterInput, input: ListIssuesInput) -> bool {
    match input.project_id {
        Some(p) => f.project matches Some(x) && id_is(x.id, p.text()),
        None => f.project is None,
    }
}

/// The comparator matches exactly the text `s`, and nothing else is asked.
pub open spec fn exact_text(c: Option<StringComparatorInput>, s: String) -> bool {
    c matches Some(y) && y.eq == Some(s) && y.eq_ignore_case is None && y.contains_ignore_case is None
}

/// The state condition of the filter is the listing's state name, exactly.
pub open spec fn state_part(f: IssueFilterInput, input: ListIssuesInput) -> bool {
    match input.state_name {
        Some(s) => f.state matches Some(x) && x.team is None && exact_text(x.name, s),
        None => f.state is None,
    }
}

/// The assignee condition of the filter follows the listing's assignee.
pub open spec fn assignee_part(f: IssueFilterInput, input: ListIssuesInput) -> bool {
    match input.assignee_id {
        Some(a) => f.assignee matches Some(x) && id_is(x.id, a@),
        None => f.assignee is None,
    }
}

/// The priority condition of the filter is the listing's priority number.
pub open spec fn priority_part(f: IssueFilterInput, input: ListIssuesInput) -> bool {
    match input.priority {
        Some(p) => f.priority matches Some(x) && x.eq == Some(p.number()),
        None => f.priority is None,
    }
}

/// The title condition: containment, ignoring case, of a non-empty title text.
pub open spec fn title_part(f: IssueFilterInput, input: ListIssuesInput) -> bool {
    if wants_title(input) {
        f.title matches Some(c) && c.contains_ignore_case == input.title_contains && c.eq is None
            && c.eq_ignore_case is None
    } else {
        f.title is None
    }
}

/// Every label is required: the first in `labels`, each further one in a filter
/// of its own under `and`, in order.
pub open spec fn labels_part(f: IssueFilterInput, input: ListIssuesInput) -> bool {
    let ls = input.label_ids@;
    &&& ls.len() == 0 ==> f.labels is None
    &&& ls.len() > 0 ==> label_filter_is(f.labels, ls[0]@)
    &&& ls.len() <= 1 ==> f.and is None
    &&& ls.len() > 1 ==> (f.and matches Some(extra) && extra@.len() == ls.len() - 1 && forall|
        i: int,
    | 0 <= i < extra@.len() ==> only_label(#[trigger] extra@[i], ls[i + 1]@))
}

/// The filter requires a label with id `v`: by its own label condition, or by one
/// of the filters under `and`.
pub open spec fn requires_label(f: IssueFilterInput, v: Seq<char>) -> bool {
    ||| label_filter_is(f.labels, v)
    ||| (f.and matches Some(extra) && exists|i: int|
        0 <= i < extra@.len() && label_filter_is(#[trigger] extra@[i].labels, v))
}

/// A listing's filter requires every label the listing names, and no label it
/// does not name: the labels required by the filter's own condition and by the
/// filters under `and` are exactly the listing's labels, so only issues carrying
/// all of them are listed.
pub proof fn lemma_filter_requires_every_label(f: IssueFilterInput, input: ListIssuesInput)
    requires
        labels_part(f, input),
    ensures
        forall|k: int|
            0 <= k < input.label_ids@.len() ==> requires_label(f, (#[trigger] input.label_ids@[k])@),
        forall|v: Seq<char>|
            requires_label(f, v) ==> exists|k: int|
                0 <= k < input.label_ids@.len() && (#[trigger] input.label_ids@[k])@ == v,
{
    let ls = input.label_ids@;
    assert forall|k: int| 0 <= k < ls.len() implies requires_label(f, (#[trigger] ls[k])@) by {
        if k > 0 {
            let extra = f.and->0;
            assert(only_label(extra@[k - 1], ls[k]@));
            assert(label_filter_is(extra@[k - 1].labels, ls[k]@));
        }
    }
    assert forall|v: Seq<char>| requires_label(f, v) implies exists|k: int|
        0 <= k < ls.len() && (#[trigger] ls[k])@ == v by {
        if label_filter_is(f.labels, v) {
            assert(ls[0]@ == v);
        } else {
            let extra = f.and->0;
            let i = choose|i: int| 0 <= i < extra@.len() && label_filter_is(
                #[trigger] extra@[i].labels,
                v,
            );
            assert(only_label(extra@[i], ls[i + 1]@));
            assert(ls[i + 1]@ == v);
        }
    }
}

/// The filter for a single id.
fn id_eq(v: String) -> (c: Option<IdComparatorInput>)
    ensures
        id_is(c, v@),
{
    Some(IdComparatorInput { eq: Some(v), in_list: None })
}

/// The filter that requires a label with the given id.
fn label_filter(l: &LabelId) -> (f: Option<LabelCollectionFilterInput>)
    ensures
        label_filter_is(f, l@),
{
    Some(LabelCollectionFilterInput { some: Some(IssueLabelFilterInput { id: id_eq(l.to_string()) }) })
}

/// Builds the filter of an issue listing. Team, project, assignee and priority
/// are matched exactly, the state by its exact name, the title by containment
/// ignoring case (an empty title filters nothing). Every label is required: the
/// first in `labels`, each further one in a filter of its own under `and`. With
/// no condition at all there is no filter.
pub fn build_issue_filter(input: &ListIssuesInput) -> (r: Option<IssueFilterInput>)
    ensures
        filters_nothing(*input) <==> r is None,
        r matches Some(f) ==> team_part(f, *input),
        r matches Some(f) ==> project_part(f, *input),
        r matches Some(f) ==> state_part(f, *input),
        r matches Some(f) ==> assignee_part(f, *input),
        r matches Some(f) ==> priority_part(f, *input),
        r matches Some(f) ==> title_part(f, *input),
        r matches Some(f) ==> labels_part(f, *input),
        r matches Some(f) ==> f.id is None,
{
    let team = match &input.team_id {
        Some(t) => Some(TeamFilterInput { id: id_eq(t.to_string()) }),
        None => None,
    };
    let project = match &input.project_id {
        Some(p) => Some(ProjectFilterInput { id: id_eq(p.to_string()) }),
        None => None,
    };
    let state = match &input.state_name {
        Some(s) => Some(
            StateFilterInput {
                name: Some(
                    StringComparatorInput {
                        eq: Some(s.clone()),
                        eq_ignore_case: None,
                        contains_ignore_case: None,
                    },
                ),
                team: None,
            },
        ),
        None => None,
    };
    let assignee = match &input.assignee_id {
        Some(a) => Some(AssigneeFilterInput { id: id_eq(a.to_string()) }),
        None => None,
    };
    let priority = match &input.priority {
        Some(p) => Some(NullableNumberComparatorInput { eq: Some(p.as_u8()) }),
        None => None,
    };
    let title = match &input.title_contains {
        Some(t) => if t.as_str().is_empty() {
            None
        } else {
            Some(
                StringComparatorInput {
                    eq: None,
                    eq_ignore_case: None,
                    contains_ignore_case: Some(t.clone()),
                },
            )
        },
        None => None,
    };
    let n = input.label_ids.len();
    let labels = if n > 0 {
        label_filter(&input.label_ids[0])
    } else {
        None
    };
    let mut extra: Vec<IssueFilterInput> = Vec::new();
    let mut i: usize = 1;
    while i < n
        invariant
            n == input.label_ids@.len(),
            1 <= i,
            n > 0 ==> i <= n,
            n == 0 ==> i == 1,
            extra@.len() == i - 1,
            forall|k: int|
                0 <= k < extra@.len() ==> only_label(#[trigger] extra@[k], input.label_ids@[k + 1]@),
        decreases n - i,
    {
        extra.push(
            IssueFilterInput {
                labels: label_filter(&input.label_ids[i]),
                team: None,
                project: None,
                state: None,
                assignee: None,
                priority: None,
                id: None,
                title: None,
                and: None,
            },
        );
        i = i + 1;
    }
    let and = if extra.len() == 0 {
        None
    } else {
        Some(extra)
    };

    if team.is_none() && project.is_none() && state.is_none() && assignee.is_none()
        && priority.is_none() && labels.is_none() && title.is_none() {
        return None;
    }
    Some(IssueFilterInput { team, project, state, assignee, priority, labels, id: None, title, and })
}

/// Variables of the issue listing.
#[derive(Debug)]
pub struct IssueListVariables {
    pub filter: Option<IssueFilterInput>,
    pub first: i32,
    pub after: Option<String>,
}

/// Variables of the single-issue query.
#[derive(Debug)]
pub struct GetIssueByIdVariables {
    pub id: String,
}

/// Variables of the issue query by display id.
#[derive(Debug)]
pub struct GetIssueByIdentifierVariables {
    pub filter: IssueFilterInput,
}

/// Variables of the workflow-state listing.
#[derive(Debug)]
pub struct WorkflowStatesVariables {
    pub filter: StateFilterInput,
}

/// The variables of an issue listing page: the listing's filter and page size,
/// after the given cursor.
pub fn issue_list_variables(input: &ListIssuesInput, after: Option<String>) -> (v:
    IssueListVariables)
    ensures
        v.first == input.limit,
        v.after == after,
        filters_nothing(*input) <==> v.filter is None,
{
    IssueListVariables { filter: build_issue_filter(input), first: input.limit, after }
}

/// The variables that list one team's workflow states.
pub fn workflow_states_variables(team_id: &str) -> (v: WorkflowStatesVariables)
    ensures
        v.filter.name is None,
        v.filter.team matches Some(t) && id_is(t.id, team_id@),
{
    WorkflowStatesVariables {
        filter: StateFilterInput {
            name: None,
            team: Some(TeamFilterInput { id: id_eq(String::from_str(team_id)) }),
        },
    }
}

/// A workflow state as an issue references it.
#[derive(Debug)]
pub struct WorkflowStateNode {
    pub id: String,
    pub name: String,
    pub state_type: String,
}

/// A user: id and name.
#[derive(Debug)]
pub struct UserNode {
    pub id: String,
    pub name: String,
}

/// A label: its id.
#[derive(Debug)]
pub struct IssueLabelNode {
    pub id: String,
}

/// An issue's labels.
#[derive(Debug)]
pub struct IssueLabelConnection {
    pub nodes: Vec<IssueLabelNode>,
}

/// An issue's team: its id.
#[derive(Debug)]
pub struct IssueTeamNode {
    pub id: String,
}

/// A child issue.
#[derive(Debug)]
pub struct SubIssueNode {
    pub id: String,
    pub identifier: String,
    pub title: String,
}

/// An issue's children.
#[derive(Debug)]
pub struct SubIssueConnection {
    pub nodes: Vec<SubIssueNode>,
}

/// An issue as listings return it. `priority` is the API's float priority as the
/// caller converted it to an integer.
#[derive(Debug)]
pub struct IssueNode {
    pub id: String,
    pub identifier: String,
    pub title: String,
    pub state: WorkflowStateNode,
    pub priority: u8,
    pub team: IssueTeamNode,
    pub assignee: Option<UserNode>,
    pub labels: IssueLabelConnection,
    pub created_at: String,
    pub updated_at: String,
}

/// An issue with every detail. `priority` is the API's float priority converted
/// to an integer; `estimate` is the API's float estimate as its IEEE-754 bits.
#[derive(Debug)]
pub struct IssueDetailNode {
    pub id: String,
    pub identifier: String,
    pub title: String,
    pub description: Option<String>,
    pub state: WorkflowStateNode,
    pub priority: u8,
    pub team: IssueTeamNode,
    pub assignee: Option<UserNode>,
    pub labels: IssueLabelConnection,
    pub due_date: Option<String>,
    pub estimate: Option<u64>,
    pub parent: Option<IssueParentNode>,
    pub children: SubIssueConnection,
    pub created_at: String,
    pub updated_at: String,
}

/// An issue's parent: id and title.
#[derive(Debug)]
pub struct IssueParentNode {
    pub id: String,
    pub title: String,
}

/// A page of issues.
#[derive(Debug)]
pub struct IssueConnection {
    pub nodes: Vec<IssueNode>,
    pub page_info: PageInfoNode,
}

/// A page of detailed issues.
#[derive(Debug)]
pub struct IssueDetailConnection {
    pub nodes: Vec<IssueDetailNode>,
    pub page_info: PageInfoNode,
}

/// A workflow state with its category.
#[derive(Debug)]
pub struct WorkflowStateDetailNode {
    pub id: String,
    pub name: String,
    pub state_type: String,
}

/// A team's workflow states.
#[derive(Debug)]
pub struct WorkflowStateConnection {
    pub nodes: Vec<WorkflowStateDetailNode>,
}

} // verus!
