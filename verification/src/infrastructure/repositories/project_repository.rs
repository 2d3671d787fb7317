//! Projects read from and written to the API, as far as plain values carry them.
//! A project node's progress is a float, which the caller reads.
use vstd::prelude::*;

use crate::dates::{iso_date_of, optional_date};
use crate::domain::entities::project::{CreateProjectInput, UpdateProjectInput};
use crate::domain::errors::DomainError;
use crate::domain::value_objects::project_state::{state_named, ProjectState};
use crate::domain::value_objects::team_id::TeamId;
use crate::infrastructure::graphql::mutations::project_mutations::{
    ProjectCreateInput, ProjectUpdateInput,
};
use crate::text::{lowercase, to_lowercase, str_eq};

verus! {

/// The state that the API's state text stands for: the state it names, ignoring
/// case ("canceled" too), and `Planned` for anything else.
pub open spec fn loose_state(s: Seq<char>) -> ProjectState {
    match state_named(lowercase(s)) {
        Some(st) => st,
        None => ProjectState::Planned,
    }
}

/// Reads the API's state text; unknown text reads as `Planned`.
pub fn project_state_from_str(s: &str) -> (r: ProjectState)
    ensures
        r == loose_state(s@),
        forall|st: ProjectState| s@ == st.name() ==> r == st,
{
    let l = to_lowercase(s);
    proof {
        reveal_strlit("planned");
        reveal_strlit("started");
        reveal_strlit("paused");
        reveal_strlit("completed");
        reveal_strlit("cancelled");
        reveal_strlit("canceled");
        assert("started"@[0] != "planned"@[0]);
        assert("paused"@[1] != "planned"@[1] && "paused"@[0] != "started"@[0]);
        assert("completed"@[0] != "planned"@[0] && "completed"@[0] != "started"@[0]
            && "completed"@[0] != "paused"@[0]);
        assert("cancelled"@[0] != "planned"@[0] && "cancelled"@[0] != "started"@[0]
            && "cancelled"@[0] != "paused"@[0] && "cancelled"@[1] != "completed"@[1]);
        assert("canceled"@[0] != "planned"@[0] && "canceled"@[0] != "started"@[0]
            && "canceled"@[0] != "paused"@[0] && "canceled"@[1] != "completed"@[1]);
        assert forall|st: ProjectState| s@ == st.name() implies loose_state(s@) == st by {
            assert(l@ =~= s@);
            match st {
                ProjectState::Planned => {},
                ProjectState::Started => {
                    assert("started"@[0] != "planned"@[0]);
                },
                ProjectState::Paused => {
                    assert("paused"@ != "planned"@);
                    assert("paused"@ != "started"@);
                },
                ProjectState::Completed => {
                    assert("completed"@ != "planned"@);
                    assert("completed"@ != "started"@);
                    assert("completed"@ != "paused"@);
                },
                ProjectState::Cancelled => {
                    assert("cancelled"@ != "planned"@);
                    assert("cancelled"@ != "started"@);
                    assert("cancelled"@ != "paused"@);
                    assert("cancelled"@[1] != "completed"@[1]);
                },
            }
        }
    }
    let l = l.as_str();
    if str_eq(l, "started") {
        ProjectState::Started
    } else if str_eq(l, "paused") {
        ProjectState::Paused
    } else if str_eq(l, "completed") {
        ProjectState::Completed
    } else if str_eq(l, "cancelled") || str_eq(l, "canceled") {
        ProjectState::Cancelled
    } else {
        ProjectState::Planned
    }
}

/// A project as the API returns it, but for its progress (a float, which the
/// caller reads): `lead_id` is the lead's id, `team_ids` the ids of its teams.
#[derive(Debug)]
pub struct ProjectNode {
    pub id: String,
    pub name: String,
    pub description: String,
    pub slug_id: String,
    pub state: String,
    pub lead_id: Option<String>,
    pub team_ids: Vec<String>,
    pub start_date: Option<String>,
    pub target_date: Option<String>,
    pub updated_at: String,
}

/// What a project entity is built from, read off a node.
#[derive(Debug)]
pub struct ProjectParts {
    pub id: String,
    pub name: String,
    pub description: Option<String>,
    pub state: ProjectState,
    pub lead_id: Option<String>,
    pub team_ids: Vec<String>,
    pub start_date: Option<String>,
    pub target_date: Option<String>,
    pub slug_id: String,
}

/// The texts that are not empty, in order.
pub open spec fn non_empty(v: Seq<Seq<char>>) -> Seq<Seq<char>>
    decreases v.len(),
{
    if v.len() == 0 {
        Seq::empty()
    } else if v.last().len() > 0 {
        non_empty(v.drop_last()).push(v.last())
    } else {
        non_empty(v.drop_last())
    }
}

/// Every non-empty text is kept and every kept text is a non-empty one of `v`:
/// the kept texts are exactly the non-empty ones, in their order.
pub proof fn lemma_non_empty_keeps_texts(v: Seq<Seq<char>>)
    ensures
        non_empty(v) == v.filter(|t: Seq<char>| t.len() > 0),
        forall|k: int| 0 <= k < v.len() && v[k].len() > 0 ==> non_empty(v).contains(#[trigger] v[k]),
        forall|j: int|
            0 <= j < non_empty(v).len() ==> #[trigger] non_empty(v)[j].len() > 0 && v.contains(
                non_empty(v)[j],
            ),
    decreases v.len(),
{
    reveal_with_fuel(Seq::filter, 1);
    if v.len() > 0 {
        let init = v.drop_last();
        lemma_non_empty_keeps_texts(init);
        let kept = non_empty(v);
        let before = non_empty(init);
        assert forall|k: int| 0 <= k < v.len() && v[k].len() > 0 implies kept.contains(
            #[trigger] v[k],
        ) by {
            if k < v.len() - 1 {
                assert(init[k] == v[k]);
                let j = choose|j: int| 0 <= j < before.len() && before[j] == init[k];
                assert(kept[j] == before[j]);
            } else {
                assert(kept[kept.len() - 1] == v[k]);
            }
        }
        assert forall|j: int| 0 <= j < kept.len() implies #[trigger] kept[j].len() > 0 && v.contains(
            kept[j],
        ) by {
            if j < before.len() {
                assert(kept[j] == before[j]);
                let i = choose|i: int| 0 <= i < init.len() && init[i] == before[j];
                assert(v[i] == init[i]);
            } else {
                assert(kept[j] == v[v.len() - 1]);
            }
        }
    }
}

/// The team ids that are valid (not empty), in order.
pub fn valid_team_ids(ids: Vec<String>) -> (r: Vec<String>)
    ensures
        crate::text::views_of_strings(r@) == non_empty(crate::text::views_of_strings(ids@)),
{
    let mut out: Vec<String> = Vec::new();
    let mut i: usize = 0;
    while i < ids.len()
        invariant
            i <= ids@.len(),
            crate::text::views_of_strings(out@) == non_empty(
                crate::text::views_of_strings(ids@.take(i as int)),
            ),
        decreases ids@.len() - i,
    {
        assert(crate::text::views_of_strings(ids@.take(i + 1)).drop_last()
            =~= crate::text::views_of_strings(ids@.take(i as int)));
        if !ids[i].as_str().is_empty() {
            out.push(ids[i].clone());
            assert(crate::text::views_of_strings(out@) =~= non_empty(
                crate::text::views_of_strings(ids@.take(i as int)),
            ).push(ids@[i as int]@));
        }
        i = i + 1;
    }
    assert(ids@.take(ids@.len() as int) =~= ids@);
    out
}

/// Reads what a project entity is built from off a node: an empty description
/// is none, the state reads loosely, an empty lead id is dropped, empty team ids
/// are dropped, and the dates are read as calendar dates (text that is no date
/// is dropped).
pub fn project_parts_of(node: ProjectNode) -> (r: ProjectParts)
    ensures
        r.id == node.id,
        r.name == node.name,
        node.description@.len() == 0 ==> r.description is None,
        node.description@.len() > 0 ==> r.description == Some(node.description),
        r.state == loose_state(node.state@),
        (match node.lead_id {
            Some(l) => if l@.len() > 0 {
                r.lead_id == Some(l)
            } else {
                r.lead_id is None
            },
            None => r.lead_id is None,
        }),
        crate::text::views_of_strings(r.team_ids@) == non_empty(
            crate::text::views_of_strings(node.team_ids@),
        ),
        (match node.start_date {
            Some(t) => match iso_date_of(t@) {
                Some(d) => r.start_date matches Some(x) && x@ == d,
                None => r.start_date is None,
            },
            None => r.start_date is None,
        }),
        (match node.target_date {
            Some(t) => match iso_date_of(t@) {
                Some(d) => r.target_date matches Some(x) && x@ == d,
                None => r.target_date is None,
            },
            None => r.target_date is None,
        }),
        r.slug_id == node.slug_id,
{
    let state = project_state_from_str(node.state.as_str());
    let description = if node.description.as_str().is_empty() {
        None
    } else {
        Some(node.description)
    };
    let lead_id = match node.lead_id {
        Some(l) => if l.as_str().is_empty() {
            None
        } else {
            Some(l)
        },
        None => None,
    };
    ProjectParts {
        id: node.id,
        name: node.name,
        description,
        state,
        lead_id,
        team_ids: valid_team_ids(node.team_ids),
        start_date: optional_date(node.start_date),
        target_date: optional_date(node.target_date),
        slug_id: node.slug_id,
    }
}

/// The checks of a new project entity that need no float: its name must not be
/// empty, and it must belong to at least one team (checked in that order; the
/// progress range is checked after these).
pub fn check_project_fields(name: &str, team_count: usize) -> (r: Result<(), DomainError>)
    ensures
        name@.len() == 0 ==> (r matches Err(DomainError::InvalidInput(m)) && m@
            == "project name cannot be empty"@),
        name@.len() > 0 && team_count == 0 ==> (r matches Err(DomainError::InvalidInput(m)) && m@
            == "project must belong to at least one team"@),
        name@.len() > 0 && team_count > 0 ==> r is Ok,
{
    if name.is_empty() {
        return Err(DomainError::InvalidInput(String::from_str("project name cannot be empty")));
    }
    if team_count == 0 {
        return Err(
            DomainError::InvalidInput(String::from_str("project must belong to at least one team")),
        );
    }
    Ok(())
}

/// The texts of team ids, in order.
pub fn team_id_texts(ids: &Vec<TeamId>) -> (r: Vec<String>)
    ensures
        crate::text::views_of_strings(r@) == crate::domain::entities::project::team_id_views(ids@),
{
    let mut out: Vec<String> = Vec::new();
    let mut i: usize = 0;
    while i < ids.len()
        invariant
            i <= ids@.len(),
            crate::text::views_of_strings(out@) == crate::domain::entities::project::team_id_views(
                ids@.take(i as int),
            ),
        decreases ids@.len() - i,
    {
        out.push(ids[i].to_string());
        assert(crate::domain::entities::project::team_id_views(ids@.take(i + 1))
            =~= crate::domain::entities::project::team_id_views(ids@.take(i as int)).push(
            ids@[i as int]@,
        ));
        i = i + 1;
    }
    assert(ids@.take(ids@.len() as int) =~= ids@);
    out
}

/// The fields of the project-creation mutation for `input`, with no status.
pub fn project_create_input(input: CreateProjectInput) -> (r: ProjectCreateInput)
    ensures
        r.name == input.name,
        crate::text::views_of_strings(r.team_ids@) == crate::domain::entities::project::team_id_views(
            input.team_ids@,
        ),
        r.description == input.description,
        input.lead_id matches Some(l) ==> (r.lead_id matches Some(x) && x@ == l@),
        input.lead_id is None ==> r.lead_id is None,
        r.start_date == input.start_date,
        r.target_date == input.target_date,
        r.status_id is None,
{
    let team_ids = team_id_texts(&input.team_ids);
    ProjectCreateInput {
        name: input.name,
        team_ids,
        description: input.description,
        lead_id: match &input.lead_id {
            Some(l) => Some(l.to_string()),
            None => None,
        },
        start_date: input.start_date,
        target_date: input.target_date,
        status_id: None,
    }
}

/// The status category to look up before an update: the new state's name, when
/// the update changes the state.
pub fn status_to_look_up(input: &UpdateProjectInput) -> (r: Option<String>)
    ensures
        input.state matches Some(st) ==> (r matches Some(x) && x@ == st.name()),
        input.state is None ==> r is None,
{
    match input.state {
        Some(st) => Some(st.to_string()),
        None => None,
    }
}

/// The fields of the project-update mutation for `input`; `status_id` is the
/// status found for the new state, if the state changes.
pub fn project_update_input(input: UpdateProjectInput, status_id: Option<String>) -> (r:
    ProjectUpdateInput)
    ensures
        r.name == input.name,
        r.description == input.description,
        input.lead_id matches Some(l) ==> (r.lead_id matches Some(x) && x@ == l@),
        input.lead_id is None ==> r.lead_id is None,
        r.start_date == input.start_date,
        r.target_date == input.target_date,
        r.status_id == status_id,
{
    ProjectUpdateInput {
        name: input.name,
        description: input.description,
        lead_id: match &input.lead_id {
            Some(l) => Some(l.to_string()),
            None => None,
        },
        start_date: input.start_date,
        target_date: input.target_date,
        status_id,
    }
}

} // verus!
