//! Issues read from and written to the API.
use vstd::prelude::*;

use crate::application::use_cases::create_issue::{display_id_chars, spec_is_display_id};
use crate::domain::entities::issue::{
    CreateIssueInput, Issue, ListIssuesInput, ListIssuesResult, SubIssueRef, UpdateIssueInput,
    WorkflowStateInfo,
};
use crate::domain::repositories::paging::{PageCollector, PageStep};
use crate::domain::value_objects::project_id::ProjectId;
use crate::domain::errors::DomainError;
use crate::domain::value_objects::issue_id::IssueId;
use crate::domain::value_objects::label_id::LabelId;
use crate::domain::value_objects::priority::{priority_of, Priority};
use crate::domain::value_objects::team_id::TeamId;
use crate::domain::value_objects::user_id::UserId;
use crate::domain::value_objects::workflow_state_ref::WorkflowStateRef;
use crate::infrastructure::graphql::mutations::issue_mutations::{IssueCreateInput, IssueUpdateInput};
use crate::infrastructure::graphql::queries::issue_queries::{
    IssueDetailNode, IssueLabelNode, IssueNode, SubIssueNode, UserNode, WorkflowStateDetailNode,
    WorkflowStateNode,
};
use crate::text::{char_is_upper, chars_of, decimal, is_upper};

verus! {

/// Whether `s` reads like `ENG-123`: it opens with upper-case letters (or a dash),
/// and splitting at its last dash leaves upper-case letters before and digits
/// after, neither side empty.
pub fn is_display_id(s: &str) -> (b: bool)
    ensures
        b == spec_is_display_id(s@),
{
    let v = chars_of(s);
    let opens = v.len() > 0 && (char_is_upper(v[0]) || v[0] == '-');
    if !opens {
        proof {
            if spec_is_display_id(s@) {
                let p = choose|p: int|
                    0 < p && p + 1 < v@.len() && #[trigger] v@[p] == '-' && crate::text::all_upper(
                        v@.subrange(0, p),
                    ) && crate::text::all_digits(v@.subrange(p + 1, v@.len() as int));
                assert(v@.subrange(0, p)[0] == v@[0]);
            }
        }
        return false;
    }
    display_id_chars(&v)
}

/// The views of a sequence of label ids.
pub open spec fn label_views(v: Seq<LabelId>) -> Seq<Seq<char>> {
    v.map_values(|l: LabelId| l@)
}

/// The ids of the label nodes, those that are empty left out, in order.
pub open spec fn kept_label_ids(nodes: Seq<IssueLabelNode>) -> Seq<Seq<char>>
    decreases nodes.len(),
{
    if nodes.len() == 0 {
        Seq::empty()
    } else if nodes.last().id@.len() > 0 {
        kept_label_ids(nodes.drop_last()).push(nodes.last().id@)
    } else {
        kept_label_ids(nodes.drop_last())
    }
}

/// The label ids of the nodes; empty ids are left out.
pub fn label_ids_of(nodes: Vec<IssueLabelNode>) -> (r: Vec<LabelId>)
    ensures
        label_views(r@) == kept_label_ids(nodes@),
{
    let mut out: Vec<LabelId> = Vec::new();
    let mut i: usize = 0;
    while i < nodes.len()
        invariant
            i <= nodes@.len(),
            label_views(out@) == kept_label_ids(nodes@.take(i as int)),
        decreases nodes@.len() - i,
    {
        assert(nodes@.take(i + 1).drop_last() =~= nodes@.take(i as int));
        match LabelId::new(nodes[i].id.clone()) {
            Ok(l) => {
                out.push(l);
                assert(label_views(out@) =~= kept_label_ids(nodes@.take(i as int)).push(
                    nodes@[i as int].id@,
                ));
            },
            Err(_) => {},
        }
        i = i + 1;
    }
    assert(nodes@.take(nodes@.len() as int) =~= nodes@);
    out
}

/// The sub-issues of the child nodes, as (id, identifier, title); children with
/// an empty id are left out.
pub open spec fn kept_children(nodes: Seq<SubIssueNode>) -> Seq<(Seq<char>, Seq<char>, Seq<char>)>
    decreases nodes.len(),
{
    if nodes.len() == 0 {
        Seq::empty()
    } else if nodes.last().id@.len() > 0 {
        kept_children(nodes.drop_last()).push(
            (nodes.last().id@, nodes.last().identifier@, nodes.last().title@),
        )
    } else {
        kept_children(nodes.drop_last())
    }
}

/// The sub-issue references as (id, identifier, title).
pub open spec fn sub_issue_views(v: Seq<SubIssueRef>) -> Seq<(Seq<char>, Seq<char>, Seq<char>)> {
    v.map_values(|s: SubIssueRef| (s.id@, s.identifier@, s.title@))
}

/// The sub-issue references of the child nodes; children with an empty id are
/// left out.
pub fn sub_issues_of(nodes: Vec<SubIssueNode>) -> (r: Vec<SubIssueRef>)
    ensures
        sub_issue_views(r@) == kept_children(nodes@),
{
    let mut out: Vec<SubIssueRef> = Vec::new();
    let mut i: usize = 0;
    while i < nodes.len()
        invariant
            i <= nodes@.len(),
            sub_issue_views(out@) == kept_children(nodes@.take(i as int)),
        decreases nodes@.len() - i,
    {
        assert(nodes@.take(i + 1).drop_last() =~= nodes@.take(i as int));
        match IssueId::new(nodes[i].id.clone()) {
            Ok(id) => {
                out.push(
                    SubIssueRef {
                        id,
                        title: nodes[i].title.clone(),
                        identifier: nodes[i].identifier.clone(),
                    },
                );
                assert(sub_issue_views(out@) =~= kept_children(nodes@.take(i as int)).push(
                    (nodes@[i as int].id@, nodes@[i as int].identifier@, nodes@[i as int].title@),
                ));
            },
            Err(_) => {},
        }
        i = i + 1;
    }
    assert(nodes@.take(nodes@.len() as int) =~= nodes@);
    out
}

/// The sub-issue a child node stands for: its id, identifier and title.
pub open spec fn child_view(n: SubIssueNode) -> (Seq<char>, Seq<char>, Seq<char>) {
    (n.id@, n.identifier@, n.title@)
}

/// Every child with a non-empty id is among the sub-issues, and every sub-issue is
/// such a child: nothing is lost and nothing is made up.
pub proof fn lemma_children_kept(nodes: Seq<SubIssueNode>)
    ensures
        forall|k: int|
            0 <= k < nodes.len() && nodes[k].id@.len() > 0 ==> kept_children(nodes).contains(
                child_view(#[trigger] nodes[k]),
            ),
        forall|j: int|
            0 <= j < kept_children(nodes).len() ==> exists|k: int|
                0 <= k < nodes.len() && nodes[k].id@.len() > 0 && #[trigger] kept_children(
                    nodes,
                )[j] == child_view(nodes[k]),
        kept_children(nodes).len() <= nodes.len(),
    decreases nodes.len(),
{
    if nodes.len() > 0 {
        let init = nodes.drop_last();
        lemma_children_kept(init);
        let kept = kept_children(nodes);
        let before = kept_children(init);
        assert forall|k: int|
            0 <= k < nodes.len() && nodes[k].id@.len() > 0 implies kept.contains(
                child_view(#[trigger] nodes[k]),
            ) by {
            if k < nodes.len() - 1 {
                assert(init[k] == nodes[k]);
                let j = choose|j: int| 0 <= j < before.len() && before[j] == child_view(init[k]);
                assert(kept[j] == before[j]);
            } else {
                assert(kept[kept.len() - 1] == child_view(nodes[k]));
            }
        }
        assert forall|j: int| 0 <= j < kept.len() implies exists|k: int|
            0 <= k < nodes.len() && nodes[k].id@.len() > 0 && #[trigger] kept[j] == child_view(
                nodes[k],
            ) by {
            if j < before.len() {
                assert(kept[j] == before[j]);
                let k = choose|k: int|
                    0 <= k < init.len() && init[k].id@.len() > 0 && #[trigger] before[j]
                        == child_view(init[k]);
                assert(init[k] == nodes[k]);
            } else {
                assert(kept[j] == child_view(nodes[nodes.len() - 1]));
            }
        }
    }
}

/// The sub-issues are exactly the children with a non-empty id, in their order.
pub proof fn lemma_children_in_order(nodes: Seq<SubIssueNode>)
    ensures
        kept_children(nodes) == nodes.filter_map(
            |n: SubIssueNode|
                if n.id@.len() > 0 {
                    Some(child_view(n))
                } else {
                    None
                },
        ),
    decreases nodes.len(),
{
    if nodes.len() > 0 {
        lemma_children_in_order(nodes.drop_last());
        let f = |n: SubIssueNode|
            if n.id@.len() > 0 {
                Some(child_view(n))
            } else {
                None
            };
        if nodes.last().id@.len() > 0 {
            assert(nodes.drop_last().filter_map(f).push(child_view(nodes.last()))
                =~= nodes.drop_last().filter_map(f) + seq![child_view(nodes.last())]);
        }
    }
}

/// Every label node with a non-empty id gives its id, every id given comes from
/// such a node, and the ids keep the nodes' order.
pub proof fn lemma_label_ids_kept(nodes: Seq<IssueLabelNode>)
    ensures
        forall|k: int|
            0 <= k < nodes.len() && nodes[k].id@.len() > 0 ==> kept_label_ids(nodes).contains(
                (#[trigger] nodes[k]).id@,
            ),
        forall|j: int|
            0 <= j < kept_label_ids(nodes).len() ==> exists|k: int|
                0 <= k < nodes.len() && nodes[k].id@.len() > 0 && #[trigger] kept_label_ids(
                    nodes,
                )[j] == nodes[k].id@,
        kept_label_ids(nodes) == nodes.filter_map(
            |n: IssueLabelNode|
                if n.id@.len() > 0 {
                    Some(n.id@)
                } else {
                    None
                },
        ),
    decreases nodes.len(),
{
    if nodes.len() > 0 {
        let init = nodes.drop_last();
        lemma_label_ids_kept(init);
        let kept = kept_label_ids(nodes);
        let before = kept_label_ids(init);
        assert forall|k: int|
            0 <= k < nodes.len() && nodes[k].id@.len() > 0 implies kept.contains(
                (#[trigger] nodes[k]).id@,
            ) by {
            if k < nodes.len() - 1 {
                assert(init[k] == nodes[k]);
                let j = choose|j: int| 0 <= j < before.len() && before[j] == init[k].id@;
                assert(kept[j] == before[j]);
            } else {
                assert(kept[kept.len() - 1] == nodes[k].id@);
            }
        }
        assert forall|j: int| 0 <= j < kept.len() implies exists|k: int|
            0 <= k < nodes.len() && nodes[k].id@.len() > 0 && #[trigger] kept[j] == nodes[k].id@ by {
            if j < before.len() {
                assert(kept[j] == before[j]);
                let k = choose|k: int|
                    0 <= k < init.len() && init[k].id@.len() > 0 && #[trigger] before[j]
                        == init[k].id@;
                assert(init[k] == nodes[k]);
            } else {
                assert(kept[j] == nodes[nodes.len() - 1].id@);
            }
        }
        let f = |n: IssueLabelNode|
            if n.id@.len() > 0 {
                Some(n.id@)
            } else {
                None
            };
        if nodes.last().id@.len() > 0 {
            assert(init.filter_map(f).push(nodes.last().id@) =~= init.filter_map(f) + seq![
                nodes.last().id@,
            ]);
        }
    }
}

/// The workflow state reference of a state node.
fn state_ref_of(node: WorkflowStateNode) -> (r: WorkflowStateRef)
    ensures
        r.id == node.id && r.name == node.name && r.state_type == node.state_type,
{
    WorkflowStateRef { id: node.id, name: node.name, state_type: node.state_type }
}

/// The assignee's id (when it is non-empty) and name.
fn assignee_of(a: Option<UserNode>) -> (r: (Option<UserId>, Option<String>))
    ensures
        a matches Some(u) ==> (if u.id@.len() > 0 {
            r.0 matches Some(x) && x@ == u.id@
        } else {
            r.0 is None
        }) && r.1 == Some(u.name),
        a is None ==> r.0 is None && r.1 is None,
{
    match a {
        Some(u) => {
            let id = match UserId::new(u.id) {
                Ok(x) => Some(x),
                Err(_) => None,
            };
            (id, Some(u.name))
        },
        None => (None, None),
    }
}

/// The error that converting an issue node meets first, if any: a priority above
/// 4, then an empty team id, then an empty issue id, then an empty title.
pub open spec fn node_fault(priority: u8, team_id: Seq<char>, id: Seq<char>, title: Seq<char>, e: DomainError) -> bool {
    if priority > 4 {
        e matches DomainError::InvalidInput(m) && m@ == "invalid priority value: "@ + decimal(
            priority as nat,
        )
    } else if team_id.len() == 0 {
        e matches DomainError::InvalidInput(m) && m@ == "team id cannot be empty"@
    } else if id.len() == 0 {
        e matches DomainError::InvalidInput(m) && m@ == "issue id cannot be empty"@
    } else {
        e matches DomainError::InvalidInput(m) && m@ == "issue title cannot be empty"@
    }
}

/// The node carries a valid priority, team id, issue id and title.
pub open spec fn node_sound(priority: u8, team_id: Seq<char>, id: Seq<char>, title: Seq<char>) -> bool {
    priority <= 4 && team_id.len() > 0 && id.len() > 0 && title.len() > 0
}

/// `i` is the issue that a sound listing node stands for: its fields come from the
/// node, without description, due date, estimate, parent or children; empty label
/// ids are left out, and an assignee with an empty id keeps only its name.
pub open spec fn light_issue_of(node: IssueNode, i: Issue) -> bool {
    &&& i.id@ == node.id@
    &&& i.identifier == node.identifier
    &&& i.title@ == node.title@
    &&& i.description is None
    &&& i.state.id == node.state.id
    &&& i.state.name == node.state.name
    &&& i.state.state_type == node.state.state_type
    &&& i.priority == priority_of(node.priority)
    &&& i.team_id@ == node.team.id@
    &&& node.assignee matches Some(u) ==> (i.assignee_name == Some(u.name) && (if u.id@.len()
        > 0 {
        i.assignee_id matches Some(x) && x@ == u.id@
    } else {
        i.assignee_id is None
    }))
    &&& node.assignee is None ==> i.assignee_id is None && i.assignee_name is None
    &&& label_views(i.label_ids@) == kept_label_ids(node.labels.nodes@)
    &&& i.due_date is None
    &&& i.estimate is None
    &&& i.parent_id is None
    &&& i.parent_title is None
    &&& i.sub_issues@.len() == 0
    &&& i.created_at == node.created_at
    &&& i.updated_at == node.updated_at
}

/// The listing node is sound (see `node_sound`).
pub open spec fn light_node_sound(node: IssueNode) -> bool {
    node_sound(node.priority, node.team.id@, node.id@, node.title@)
}

/// `e` is the error that converting the listing node meets first.
pub open spec fn light_node_fault(node: IssueNode, e: DomainError) -> bool {
    node_fault(node.priority, node.team.id@, node.id@, node.title@, e)
}

/// Turns a listing node into an issue (without description, dates, estimate,
/// parent or children). The node's faults are reported as `node_fault` says;
/// label ids that are empty, and an assignee with an empty id, are dropped.
pub fn node_to_issue_light(node: IssueNode) -> (r: Result<Issue, DomainError>)
    ensures
        !light_node_sound(node) ==> (r matches Err(e) && light_node_fault(node, e)),
        light_node_sound(node) ==> (r matches Ok(i) && light_issue_of(node, i)),
{
    let state = state_ref_of(node.state);
    let priority = match Priority::try_from(node.priority) {
        Ok(p) => p,
        Err(e) => {
            return Err(e);
        },
    };
    let team_id = match TeamId::new(node.team.id) {
        Ok(t) => t,
        Err(e) => {
            return Err(e);
        },
    };
    let id = match IssueId::new(node.id) {
        Ok(i) => i,
        Err(e) => {
            return Err(e);
        },
    };
    let (assignee_id, assignee_name) = assignee_of(node.assignee);
    let label_ids = label_ids_of(node.labels.nodes);
    Issue::new(
        id,
        node.identifier,
        node.title,
        None,
        state,
        priority,
        team_id,
        assignee_id,
        assignee_name,
        label_ids,
        None,
        None,
        None,
        None,
        Vec::new(),
        node.created_at,
        node.updated_at,
    )
}

/// Turns a detailed node into an issue. The node's faults are reported as
/// `node_fault` says; empty label ids, children with empty ids, and an assignee
/// or parent with an empty id are dropped (the parent's title is kept).
pub fn node_to_issue_detail(node: IssueDetailNode) -> (r: Result<Issue, DomainError>)
    ensures
        !node_sound(node.priority, node.team.id@, node.id@, node.title@) ==> (r matches Err(e)
            && node_fault(node.priority, node.team.id@, node.id@, node.title@, e)),
        node_sound(node.priority, node.team.id@, node.id@, node.title@) ==> (r matches Ok(i)
            && i.id@ == node.id@ && i.identifier == node.identifier && i.title@ == node.title@
            && i.description == node.description && i.state.id == node.state.id && i.state.name
            == node.state.name && i.state.state_type == node.state.state_type && i.priority
            == priority_of(node.priority) && i.team_id@ == node.team.id@ && (
        node.assignee matches Some(u) ==> (i.assignee_name == Some(u.name) && (if u.id@.len() > 0 {
            i.assignee_id matches Some(x) && x@ == u.id@
        } else {
            i.assignee_id is None
        }))) && (node.assignee is None ==> i.assignee_id is None && i.assignee_name is None)
            && label_views(i.label_ids@) == kept_label_ids(node.labels.nodes@) && i.due_date
            == node.due_date && i.estimate == node.estimate && (node.parent matches Some(p) ==> (
        i.parent_title == Some(p.title) && (if p.id@.len() > 0 {
            i.parent_id matches Some(x) && x@ == p.id@
        } else {
            i.parent_id is None
        }))) && (node.parent is None ==> i.parent_id is None && i.parent_title is None)
            && sub_issue_views(i.sub_issues@) == kept_children(node.children.nodes@)
            && i.created_at == node.created_at && i.updated_at == node.updated_at),
{
    let state = state_ref_of(node.state);
    let priority = match Priority::try_from(node.priority) {
        Ok(p) => p,
        Err(e) => {
            return Err(e);
        },
    };
    let team_id = match TeamId::new(node.team.id) {
        Ok(t) => t,
        Err(e) => {
            return Err(e);
        },
    };
    let id = match IssueId::new(node.id) {
        Ok(i) => i,
        Err(e) => {
            return Err(e);
        },
    };
    let (assignee_id, assignee_name) = assignee_of(node.assignee);
    let label_ids = label_ids_of(node.labels.nodes);
    let (parent_id, parent_title) = match node.parent {
        Some(p) => {
            let pid = match IssueId::new(p.id) {
                Ok(x) => Some(x),
                Err(_) => None,
            };
            (pid, Some(p.title))
        },
        None => (None, None),
    };
    let sub_issues = sub_issues_of(node.children.nodes);
    Issue::new(
        id,
        node.identifier,
        node.title,
        node.description,
        state,
        priority,
        team_id,
        assignee_id,
        assignee_name,
        label_ids,
        node.due_date,
        node.estimate,
        parent_id,
        parent_title,
        sub_issues,
        node.created_at,
        node.updated_at,
    )
}

/// The workflow states of the nodes, in order.
pub fn workflow_state_infos(nodes: Vec<WorkflowStateDetailNode>) -> (r: Vec<WorkflowStateInfo>)
    ensures
        r@.len() == nodes@.len(),
        forall|i: int|
            0 <= i < r@.len() ==> (#[trigger] r@[i]).id == nodes@[i].id && r@[i].name
                == nodes@[i].name && r@[i].state_type == nodes@[i].state_type,
{
    let mut out: Vec<WorkflowStateInfo> = Vec::new();
    let mut i: usize = 0;
    while i < nodes.len()
        invariant
            i <= nodes@.len(),
            out@.len() == i,
            forall|k: int|
                0 <= k < i ==> (#[trigger] out@[k]).id == nodes@[k].id && out@[k].name
                    == nodes@[k].name && out@[k].state_type == nodes@[k].state_type,
        decreases nodes@.len() - i,
    {
        let node = &nodes[i];
        out.push(
            WorkflowStateInfo {
                id: node.id.clone(),
                name: node.name.clone(),
                state_type: node.state_type.clone(),
            },
        );
        i = i + 1;
    }
    out
}

/// Every listing node is sound.
pub open spec fn all_light_sound(nodes: Seq<IssueNode>) -> bool {
    forall|k: int| 0 <= k < nodes.len() ==> light_node_sound(#[trigger] nodes[k])
}

/// Converts the listing nodes in order. The first node that is not sound stops
/// the conversion with its error.
pub fn issues_of_nodes(nodes: Vec<IssueNode>) -> (r: Result<Vec<Issue>, DomainError>)
    ensures
        all_light_sound(nodes@) ==> (r matches Ok(v) && v@.len() == nodes@.len() && forall|k: int|
            0 <= k < v@.len() ==> light_issue_of(nodes@[k], #[trigger] v@[k])),
        !all_light_sound(nodes@) ==> (r matches Err(e) && exists|k: int|
            0 <= k < nodes@.len() && !light_node_sound(#[trigger] nodes@[k]) && light_node_fault(
                nodes@[k],
                e,
            ) && forall|j: int| 0 <= j < k ==> light_node_sound(#[trigger] nodes@[j])),
{
    let ghost orig = nodes@;
    let mut rest = nodes;
    let mut out: Vec<Issue> = Vec::new();
    while rest.len() > 0
        invariant
            orig == nodes@,
            out@.len() + rest@.len() == orig.len(),
            rest@ == orig.subrange(out@.len() as int, orig.len() as int),
            forall|k: int| 0 <= k < out@.len() ==> light_node_sound(#[trigger] orig[k]),
            forall|k: int| 0 <= k < out@.len() ==> light_issue_of(orig[k], #[trigger] out@[k]),
        decreases rest@.len(),
    {
        let node = rest.remove(0);
        let ghost k = out@.len() as int;
        assert(node == orig[k]);
        match node_to_issue_light(node) {
            Ok(i) => {
                out.push(i);
            },
            Err(e) => {
                proof {
                    assert(!light_node_sound(orig[k]));
                    assert(!all_light_sound(orig));
                }
                return Err(e);
            },
        }
    }
    Ok(out)
}

/// The slug to resolve before listing, when the listing names its project by
/// slug.
pub fn slug_to_resolve(input: &ListIssuesInput) -> (r: Option<String>)
    ensures
        input.project_id matches Some(ProjectId::Slug(g)) ==> r == Some(g),
        !(input.project_id matches Some(ProjectId::Slug(_))) ==> r is None,
{
    match &input.project_id {
        Some(ProjectId::Slug(g)) => Some(g.clone()),
        _ => None,
    }
}

/// The listing with its project named by the UUID that its slug resolved to.
pub fn with_project_uuid(input: ListIssuesInput, uuid: String) -> (r: ListIssuesInput)
    ensures
        r == (ListIssuesInput { project_id: Some(ProjectId::Uuid(uuid)), ..input }),
{
    ListIssuesInput { project_id: Some(ProjectId::Uuid(uuid)), ..input }
}

/// The largest page asked for while walking through every page of a listing.
pub const ALL_PAGES_PAGE_SIZE: i32 = 250;

/// The listing as each page of a walk through all pages asks for it: pages of
/// `ALL_PAGES_PAGE_SIZE` issues, the requested limit notwithstanding.
pub fn all_pages_input(input: ListIssuesInput) -> (r: ListIssuesInput)
    ensures
        r == (ListIssuesInput { limit: ALL_PAGES_PAGE_SIZE, ..input }),
{
    ListIssuesInput { limit: ALL_PAGES_PAGE_SIZE, ..input }
}

/// The result of a single-page listing: the page's issues and its pagination data.
/// The first node that is not sound fails the listing with its error.
pub fn single_page_result(nodes: Vec<IssueNode>, has_next_page: bool, end_cursor: Option<String>) -> (r:
    Result<ListIssuesResult, DomainError>)
    ensures
        all_light_sound(nodes@) ==> (r matches Ok(res) && res.items@.len() == nodes@.len() && (
        forall|k: int| 0 <= k < nodes@.len() ==> light_issue_of(nodes@[k], #[trigger] res.items@[k]))
            && res.next_cursor == end_cursor && res.has_next_page == has_next_page),
        !all_light_sound(nodes@) ==> (r matches Err(e) && exists|k: int|
            0 <= k < nodes@.len() && !light_node_sound(#[trigger] nodes@[k]) && light_node_fault(
                nodes@[k],
                e,
            ) && forall|j: int| 0 <= j < k ==> light_node_sound(#[trigger] nodes@[j])),
{
    match issues_of_nodes(nodes) {
        Ok(items) => Ok(ListIssuesResult { items, next_cursor: end_cursor, has_next_page }),
        Err(e) => Err(e),
    }
}

/// `after` is `before` followed by the issues that the listing nodes stand for.
pub open spec fn extends_with(before: Seq<Issue>, after: Seq<Issue>, nodes: Seq<IssueNode>) -> bool {
    &&& after.len() == before.len() + nodes.len()
    &&& after.subrange(0, before.len() as int) == before
    &&& forall|k: int|
        0 <= k < nodes.len() ==> light_issue_of(nodes[k], #[trigger] after[before.len() + k])
}

/// The step after one page of a walk through all pages: the page's issues join
/// those gathered (or its first unsound node fails the listing), then the walk
/// goes on after the page's end cursor or stops.
pub fn on_issue_page(collector: PageCollector<Issue>, nodes: Vec<IssueNode>, has_next_page: bool, end_cursor: Option<String>) -> (r:
    Result<PageStep<Issue>, DomainError>)
    ensures
        !all_light_sound(nodes@) ==> (r matches Err(e) && exists|k: int|
            0 <= k < nodes@.len() && !light_node_sound(#[trigger] nodes@[k]) && light_node_fault(
                nodes@[k],
                e,
            ) && forall|j: int| 0 <= j < k ==> light_node_sound(#[trigger] nodes@[j])),
        all_light_sound(nodes@) && has_next_page && end_cursor is Some ==> (r matches Ok(
            PageStep::Fetch { collector: c, cursor },
        ) && extends_with(collector.items@, c.items@, nodes@) && Some(cursor) == end_cursor),
        all_light_sound(nodes@) && !(has_next_page && end_cursor is Some) ==> (r matches Ok(
            PageStep::Done { items, .. },
        ) && extends_with(collector.items@, items@, nodes@)),
{
    match issues_of_nodes(nodes) {
        Ok(page) => {
            let ghost before = collector.items@;
            let ghost p = page@;
            let step = collector.on_page(page, has_next_page, end_cursor);
            proof {
                assert((before + p).subrange(0, before.len() as int) =~= before);
                assert forall|k: int| 0 <= k < nodes@.len() implies light_issue_of(
                    nodes@[k],
                    #[trigger] (before + p)[before.len() + k],
                ) by {
                    assert((before + p)[before.len() + k] == p[k]);
                }
            }
            Ok(step)
        },
        Err(e) => Err(e),
    }
}

/// The result of a walk through all pages once it stopped: everything gathered,
/// with no further page to offer.
pub fn all_pages_result(items: Vec<Issue>) -> (r: ListIssuesResult)
    ensures
        r.items == items && r.next_cursor is None && !r.has_next_page,
{
    ListIssuesResult { items, next_cursor: None, has_next_page: false }
}

/// The project UUID to create the issue in, when the input names it by UUID; a
/// slug has to be resolved first.
pub fn known_project_uuid(id: &ProjectId) -> (r: Option<String>)
    ensures
        id matches ProjectId::Uuid(u) ==> r == Some(*u),
        id is Slug ==> r is None,
{
    match id {
        ProjectId::Uuid(u) => Some(u.clone()),
        ProjectId::Slug(_) => None,
    }
}

/// The texts of label ids, in order.
pub fn label_texts(ids: &Vec<LabelId>) -> (r: Vec<String>)
    ensures
        r@.len() == ids@.len(),
        forall|k: int| 0 <= k < r@.len() ==> (#[trigger] r@[k])@ == ids@[k]@,
{
    let mut out: Vec<String> = Vec::new();
    let mut i: usize = 0;
    while i < ids.len()
        invariant
            i <= ids@.len(),
            out@.len() == i,
            forall|k: int| 0 <= k < i ==> (#[trigger] out@[k])@ == ids@[k]@,
        decreases ids@.len() - i,
    {
        out.push(ids[i].to_string());
        i = i + 1;
    }
    out
}

/// The fields of the creation mutation for `input`, in the project with UUID
/// `project_uuid`; `estimate` is the input's estimate as the API's integer. No
/// labels are sent when the input has none.
pub fn create_input(input: CreateIssueInput, project_uuid: String, estimate: Option<i32>) -> (r:
    IssueCreateInput)
    ensures
        r.title == input.title,
        r.team_id@ == input.team_id@,
        r.project_id == Some(project_uuid),
        r.description == input.description,
        input.priority matches Some(p) ==> r.priority == Some(p.number() as i32),
        input.priority is None ==> r.priority is None,
        input.assignee_id matches Some(a) ==> (r.assignee_id matches Some(x) && x@ == a@),
        input.assignee_id is None ==> r.assignee_id is None,
        input.label_ids@.len() == 0 ==> r.label_ids is None,
        input.label_ids@.len() > 0 ==> (r.label_ids matches Some(v) && v@.len()
            == input.label_ids@.len() && forall|k: int|
            0 <= k < v@.len() ==> (#[trigger] v@[k])@ == input.label_ids@[k]@),
        r.due_date == input.due_date,
        r.estimate == estimate,
        input.parent_id matches Some(p) ==> (r.parent_id matches Some(x) && x@ == p@),
        input.parent_id is None ==> r.parent_id is None,
{
    let label_ids = if input.label_ids.len() == 0 {
        None
    } else {
        Some(label_texts(&input.label_ids))
    };
    IssueCreateInput {
        title: input.title,
        team_id: input.team_id.to_string(),
        project_id: Some(project_uuid),
        description: input.description,
        priority: match input.priority {
            Some(p) => Some(p.as_u8() as i32),
            None => None,
        },
        assignee_id: match &input.assignee_id {
            Some(a) => Some(a.to_string()),
            None => None,
        },
        label_ids,
        due_date: input.due_date,
        estimate,
        parent_id: match &input.parent_id {
            Some(p) => Some(p.to_string()),
            None => None,
        },
    }
}

/// The fields of the update mutation for `input`; `estimate` is the input's
/// estimate as the API's integer. Detaching sends an explicit null parent, which
/// wins over a new parent.
pub fn update_input(input: UpdateIssueInput, estimate: Option<i32>) -> (r: IssueUpdateInput)
    ensures
        r.title == input.title,
        r.description == input.description,
        r.state_id == input.state_id,
        input.priority matches Some(p) ==> r.priority == Some(p.number() as i32),
        input.priority is None ==> r.priority is None,
        input.assignee_id matches Some(a) ==> (r.assignee_id matches Some(x) && x@ == a@),
        input.assignee_id is None ==> r.assignee_id is None,
        r.due_date == input.due_date,
        r.estimate == estimate,
        input.no_parent ==> r.parent_id == Some(None::<String>),
        input.parent_id matches Some(p) ==> (!input.no_parent ==> (r.parent_id matches Some(
            Some(x),
        ) && x@ == p@)),
        !input.no_parent && input.parent_id is None ==> r.parent_id is None,
{
    let parent_id = if input.no_parent {
        Some(None)
    } else {
        match &input.parent_id {
            Some(p) => Some(Some(p.to_string())),
            None => None,
        }
    };
    IssueUpdateInput {
        title: input.title,
        description: input.description,
        state_id: input.state_id,
        priority: match input.priority {
            Some(p) => Some(p.as_u8() as i32),
            None => None,
        },
        assignee_id: match &input.assignee_id {
            Some(a) => Some(a.to_string()),
            None => None,
        },
        due_date: input.due_date,
        estimate,
        parent_id,
    }
}

} // verus!
