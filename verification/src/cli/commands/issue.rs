//! `linear issue`: its arguments, the reading of priorities, and the
//! human-readable rendering of issues.
use vstd::prelude::*;

use crate::domain::entities::issue::{Issue, SubIssueRef};
use crate::domain::value_objects::label_id::LabelId;
use crate::domain::value_objects::priority::Priority;
use crate::infrastructure::repositories::issue_repository::label_views;
use crate::text::{
    decimal, join_strings, joined, lowercase, opt_str_view, opt_string_view, pad_right, padded,
    str_eq, to_lowercase, u64_decimal,
};

verus! {

/// The arguments of `linear issue`.
#[derive(Debug)]
pub struct IssueCommand {
    pub subcommand: IssueSubcommand,
}

/// The subcommands of `linear issue`. An estimate, a float on the command line,
/// is held as its IEEE-754 bit pattern.
#[derive(Debug)]
pub enum IssueSubcommand {
    List {
        team: Option<String>,
        project: Option<String>,
        state: Option<String>,
        assignee: Option<String>,
        priority: Option<String>,
        labels: Vec<String>,
        title: Option<String>,
        all: bool,
        limit: i32,
        cursor: Option<String>,
        output: Option<String>,
        json: bool,
    },
    Get { id: String, description: bool, subtasks: bool, output: Option<String>, json: bool },
    Create {
        title: String,
        team: String,
        project: Option<String>,
        description: Option<String>,
        priority: Option<String>,
        assignee: Option<String>,
        labels: Vec<String>,
        due_date: Option<String>,
        estimate: Option<u64>,
        parent: Option<String>,
        dry_run: bool,
        output: Option<String>,
        json: bool,
    },
    Update {
        id: String,
        title: Option<String>,
        description: Option<String>,
        state: Option<String>,
        priority: Option<String>,
        assignee: Option<String>,
        due_date: Option<String>,
        estimate: Option<u64>,
        parent: Option<String>,
        no_parent: bool,
        dry_run: bool,
        output: Option<String>,
        json: bool,
    },
    Delete { id: String, dry_run: bool, output: Option<String>, json: bool },
}

/// The label under which a priority is shown and read.
pub open spec fn label_of(p: Priority) -> Seq<char> {
    match p {
        Priority::NoPriority => "no_priority"@,
        Priority::Urgent => "urgent"@,
        Priority::High => "high"@,
        Priority::Medium => "medium"@,
        Priority::Low => "low"@,
    }
}

/// The label under which a priority is shown.
pub fn priority_label(p: Priority) -> (s: &'static str)
    ensures
        s@ == label_of(p),
{
    match p {
        Priority::NoPriority => "no_priority",
        Priority::Urgent => "urgent",
        Priority::High => "high",
        Priority::Medium => "medium",
        Priority::Low => "low",
    }
}

/// The priority that a lower-cased spelling names: its label, its number, or for
/// no priority also "no-priority" and "none".
pub open spec fn priority_named(l: Seq<char>) -> Option<Priority> {
    if l == "no_priority"@ || l == "no-priority"@ || l == "none"@ || l == "0"@ {
        Some(Priority::NoPriority)
    } else if l == "urgent"@ || l == "1"@ {
        Some(Priority::Urgent)
    } else if l == "high"@ || l == "2"@ {
        Some(Priority::High)
    } else if l == "medium"@ || l == "3"@ {
        Some(Priority::Medium)
    } else if l == "low"@ || l == "4"@ {
        Some(Priority::Low)
    } else {
        None
    }
}

/// The refusal of an unknown priority spelling (lower-cased).
pub open spec fn invalid_priority_message(l: Seq<char>) -> Seq<char> {
    "invalid priority '"@ + l + "'; use: no_priority, urgent, high, medium, low"@
}

/// A priority's label and its number, both lower-case ASCII, name that priority.
proof fn lemma_priority_spellings(p: Priority)
    ensures
        priority_named(label_of(p)) == Some(p),
        priority_named(decimal(p.number() as nat)) == Some(p),
        crate::text::all_ascii(label_of(p)),
        crate::text::all_ascii(decimal(p.number() as nat)),
        label_of(p).map_values(|c: char| crate::text::ascii_lower(c)) == label_of(p),
        decimal(p.number() as nat).map_values(|c: char| crate::text::ascii_lower(c)) == decimal(
            p.number() as nat,
        ),
{
    reveal_strlit("no_priority");
    reveal_strlit("no-priority");
    reveal_strlit("none");
    reveal_strlit("0");
    reveal_strlit("urgent");
    reveal_strlit("1");
    reveal_strlit("high");
    reveal_strlit("2");
    reveal_strlit("medium");
    reveal_strlit("3");
    reveal_strlit("low");
    reveal_strlit("4");
    assert(decimal(0) =~= "0"@);
    assert(decimal(1) =~= "1"@);
    assert(decimal(2) =~= "2"@);
    assert(decimal(3) =~= "3"@);
    assert(decimal(4) =~= "4"@);
        assert("urgent"@[0] != "no_priority"@[0] && "urgent"@[0] != "no-priority"@[0]
            && "urgent"@[0] != "none"@[0] && "urgent"@.len() != "0"@.len());
        assert("high"@[0] != "no_priority"@[0] && "high"@[0] != "no-priority"@[0]
            && "high"@[0] != "none"@[0] && "high"@.len() != "0"@.len() && "high"@[0]
            != "urgent"@[0] && "high"@.len() != "1"@.len());
        assert("medium"@[0] != "no_priority"@[0] && "medium"@[0] != "no-priority"@[0]
            && "medium"@[0] != "none"@[0] && "medium"@.len() != "0"@.len() && "medium"@[0]
            != "urgent"@[0] && "medium"@.len() != "1"@.len() && "medium"@[0] != "high"@[0]
            && "medium"@.len() != "2"@.len());
        assert("low"@[0] != "no_priority"@[0] && "low"@[0] != "no-priority"@[0] && "low"@[0]
            != "none"@[0] && "low"@.len() != "0"@.len() && "low"@[0] != "urgent"@[0]
            && "low"@.len() != "1"@.len() && "low"@[0] != "high"@[0] && "low"@.len()
            != "2"@.len() && "low"@[0] != "medium"@[0] && "low"@.len() != "3"@.len());
        assert("1"@[0] != "0"@[0] && "1"@.len() != "no_priority"@.len() && "1"@.len()
            != "no-priority"@.len() && "1"@.len() != "none"@.len());
        assert("2"@[0] != "0"@[0] && "2"@[0] != "1"@[0] && "2"@.len() != "no_priority"@.len()
            && "2"@.len() != "no-priority"@.len() && "2"@.len() != "none"@.len() && "2"@.len()
            != "urgent"@.len());
        assert("3"@[0] != "0"@[0] && "3"@[0] != "1"@[0] && "3"@[0] != "2"@[0] && "3"@.len()
            != "no_priority"@.len() && "3"@.len() != "no-priority"@.len() && "3"@.len()
            != "none"@.len() && "3"@.len() != "urgent"@.len() && "3"@.len() != "high"@.len());
        assert("4"@[0] != "0"@[0] && "4"@[0] != "1"@[0] && "4"@[0] != "2"@[0] && "4"@[0]
            != "3"@[0] && "4"@.len() != "no_priority"@.len() && "4"@.len()
            != "no-priority"@.len() && "4"@.len() != "none"@.len() && "4"@.len()
            != "urgent"@.len() && "4"@.len() != "high"@.len() && "4"@.len()
            != "medium"@.len());

    let lab = label_of(p);
    let dec = decimal(p.number() as nat);
    assert(lab.map_values(|c: char| crate::text::ascii_lower(c)) =~= lab);
    assert(dec.map_values(|c: char| crate::text::ascii_lower(c)) =~= dec);
}

/// Reads a priority, ignoring case. Every priority's label and its number read
/// back as that priority.
pub fn parse_priority(s: &str) -> (r: Result<Priority, String>)
    ensures
        priority_named(lowercase(s@)) matches Some(p) ==> r == Ok::<Priority, String>(p),
        priority_named(lowercase(s@)) is None ==> (r matches Err(m) && m@
            == invalid_priority_message(lowercase(s@))),
        forall|p: Priority| s@ == label_of(p) ==> r == Ok::<Priority, String>(p),
        forall|p: Priority| s@ == decimal(p.number() as nat) ==> r == Ok::<Priority, String>(p),
{
    let l = to_lowercase(s);
    proof {
        assert forall|p: Priority| s@ == #[trigger] label_of(p) implies priority_named(l@) == Some(
            p,
        ) by {
            lemma_priority_spellings(p);
            assert(l@ =~= s@);
        }
        assert forall|p: Priority| s@ == #[trigger] decimal(p.number() as nat) implies priority_named(
            l@,
        ) == Some(p) by {
            lemma_priority_spellings(p);
            assert(l@ =~= s@);
        }
    }
    let t = l.as_str();
    if str_eq(t, "no_priority") || str_eq(t, "no-priority") || str_eq(t, "none") || str_eq(t, "0") {
        Ok(Priority::NoPriority)
    } else if str_eq(t, "urgent") || str_eq(t, "1") {
        Ok(Priority::Urgent)
    } else if str_eq(t, "high") || str_eq(t, "2") {
        Ok(Priority::High)
    } else if str_eq(t, "medium") || str_eq(t, "3") {
        Ok(Priority::Medium)
    } else if str_eq(t, "low") || str_eq(t, "4") {
        Ok(Priority::Low)
    } else {
        Err(
            String::from_str("invalid priority '").concat(t).concat(
                "'; use: no_priority, urgent, high, medium, low",
            ),
        )
    }
}

/// The lines of the sub-issues, each `  {identifier} — {title}`.
pub open spec fn sub_issue_lines(v: Seq<SubIssueRef>) -> Seq<char>
    decreases v.len(),
{
    if v.len() == 0 {
        Seq::empty()
    } else {
        sub_issue_lines(v.drop_last()) + "  "@ + v.last().identifier@ + " \u{2014} "@
            + v.last().title@ + "\n"@
    }
}

/// Each sub-issue gets its own line `  {identifier} — {title}`, and the lines of a
/// list are the lines of its parts one after the other, so no sub-issue is left
/// out and their order is kept.
pub proof fn lemma_sub_issue_lines_per_item(a: Seq<SubIssueRef>, b: Seq<SubIssueRef>, x: SubIssueRef)
    ensures
        sub_issue_lines(seq![x]) == "  "@ + x.identifier@ + " \u{2014} "@ + x.title@ + "\n"@,
        sub_issue_lines(a + b) == sub_issue_lines(a) + sub_issue_lines(b),
    decreases b.len(),
{
    assert(seq![x].drop_last() =~= Seq::<SubIssueRef>::empty());
    assert(sub_issue_lines(seq![x].drop_last()) == Seq::<char>::empty());
    assert(Seq::<char>::empty() + "  "@ =~= "  "@);
    if b.len() == 0 {
        assert(a + b =~= a);
        assert(sub_issue_lines(a) + sub_issue_lines(b) =~= sub_issue_lines(a));
    } else {
        lemma_sub_issue_lines_per_item(a, b.drop_last(), x);
        assert((a + b).drop_last() =~= a + b.drop_last());
        assert((a + b).last() == b.last());
        let l = b.last();
        assert(sub_issue_lines(a + b) =~= sub_issue_lines(a) + sub_issue_lines(b.drop_last()) + "  "@
            + l.identifier@ + " \u{2014} "@ + l.title@ + "\n"@);
        assert(sub_issue_lines(a) + sub_issue_lines(b) =~= sub_issue_lines(a) + sub_issue_lines(
            b.drop_last(),
        ) + "  "@ + l.identifier@ + " \u{2014} "@ + l.title@ + "\n"@);
    }
}

/// The lines every rendering starts with: identifier, title, state and priority.
pub open spec fn head_lines(i: Issue) -> Seq<char> {
    "Identifier: "@ + i.identifier@ + "\n"@ + "Title:      "@ + i.title@ + "\n"@
        + "State:      "@ + i.state.name@ + "\n"@ + "Priority:   "@ + label_of(i.priority)
        + "\n"@
}

/// A line `{label}{value}` when there is a value, else nothing.
pub open spec fn optional_line(label: Seq<char>, value: Option<Seq<char>>) -> Seq<char> {
    match value {
        Some(v) => label + v + "\n"@,
        None => Seq::empty(),
    }
}

/// The labels line, when the issue has labels.
pub open spec fn labels_line(i: Issue) -> Seq<char> {
    if i.label_ids@.len() > 0 {
        "Labels:     "@ + joined(label_views(i.label_ids@), ", "@) + "\n"@
    } else {
        Seq::empty()
    }
}

/// The parent line, when the issue names its parent's title.
pub open spec fn parent_line(i: Issue) -> Seq<char> {
    match i.parent_title {
        Some(pt) => "Parent:     "@ + (match i.parent_id {
            Some(p) => p@,
            None => Seq::empty(),
        }) + " ("@ + pt@ + ")\n"@,
        None => Seq::empty(),
    }
}

/// The description section, when asked for and present.
pub open spec fn description_section(i: Issue, show_description: bool) -> Seq<char> {
    if show_description && i.description is Some {
        "Description:\n"@ + "  "@ + i.description->0@ + "\n"@
    } else {
        Seq::empty()
    }
}

/// The sub-issues section, when asked for and there are sub-issues.
pub open spec fn subtasks_section(i: Issue, show_subtasks: bool) -> Seq<char> {
    if show_subtasks && i.sub_issues@.len() > 0 {
        "Sub-issues:\n"@ + sub_issue_lines(i.sub_issues@)
    } else {
        Seq::empty()
    }
}

/// The human-readable rendering of an issue; `estimate_text` is the issue's
/// estimate as the float's `Display` writes it.
pub open spec fn issue_human_text(i: Issue, show_description: bool, show_subtasks: bool, estimate_text: Option<Seq<char>>) -> Seq<char> {
    head_lines(i) + optional_line("Assignee:   "@, opt_string_view(i.assignee_name))
        + labels_line(i) + optional_line("Due date:   "@, opt_string_view(i.due_date))
        + optional_line("Estimate:   "@, estimate_text) + parent_line(i) + description_section(
        i,
        show_description,
    ) + subtasks_section(i, show_subtasks)
}

fn optional_line_of(label: &str, value: Option<&str>) -> (r: String)
    ensures
        r@ == optional_line(label@, opt_str_view(value)),
{
    match value {
        Some(v) => String::from_str(label).concat(v).concat("\n"),
        None => String::new(),
    }
}

fn sub_issue_lines_of(v: &Vec<SubIssueRef>) -> (r: String)
    ensures
        r@ == sub_issue_lines(v@),
{
    let mut out = String::new();
    let mut i: usize = 0;
    while i < v.len()
        invariant
            i <= v@.len(),
            out@ == sub_issue_lines(v@.take(i as int)),
        decreases v@.len() - i,
    {
        assert(v@.take(i + 1).drop_last() =~= v@.take(i as int));
        out.append("  ");
        out.append(v[i].identifier.as_str());
        out.append(" \u{2014} ");
        out.append(v[i].title.as_str());
        out.append("\n");
        i = i + 1;
    }
    assert(v@.take(v@.len() as int) =~= v@);
    out
}

fn head_lines_of(issue: &Issue) -> (r: String)
    ensures
        r@ == head_lines(*issue),
{
    let mut out = String::from_str("Identifier: ");
    out.append(issue.identifier.as_str());
    out.append("\n");
    out.append("Title:      ");
    out.append(issue.title.as_str());
    out.append("\n");
    out.append("State:      ");
    out.append(issue.state.name.as_str());
    out.append("\n");
    out.append("Priority:   ");
    out.append(priority_label(issue.priority));
    out.append("\n");
    out
}

fn labels_line_of(issue: &Issue) -> (r: String)
    ensures
        r@ == labels_line(*issue),
{
    if issue.label_ids.len() > 0 {
        let texts = crate::infrastructure::repositories::issue_repository::label_texts(
            &issue.label_ids,
        );
        assert(crate::text::views_of_strings(texts@) =~= label_views(issue.label_ids@));
        let listed = join_strings(&texts, ", ");
        String::from_str("Labels:     ").concat(listed.as_str()).concat("\n")
    } else {
        String::new()
    }
}

fn parent_line_of(issue: &Issue) -> (r: String)
    ensures
        r@ == parent_line(*issue),
{
    match &issue.parent_title {
        Some(pt) => {
            let id = match &issue.parent_id {
                Some(p) => String::from_str(p.as_str()),
                None => String::new(),
            };
            String::from_str("Parent:     ").concat(id.as_str()).concat(" (").concat(
                pt.as_str(),
            ).concat(")\n")
        },
        None => String::new(),
    }
}

fn description_section_of(issue: &Issue, show_description: bool) -> (r: String)
    ensures
        r@ == description_section(*issue, show_description),
{
    if show_description {
        if let Some(d) = &issue.description {
            return String::from_str("Description:\n").concat("  ").concat(d.as_str()).concat(
                "\n",
            );
        }
    }
    String::new()
}

fn subtasks_section_of(issue: &Issue, show_subtasks: bool) -> (r: String)
    ensures
        r@ == subtasks_section(*issue, show_subtasks),
{
    if show_subtasks && issue.sub_issues.len() > 0 {
        let lines = sub_issue_lines_of(&issue.sub_issues);
        String::from_str("Sub-issues:\n").concat(lines.as_str())
    } else {
        String::new()
    }
}

/// Renders an issue for people: identifier, title, state and priority, then the
/// assignee, labels, due date, estimate and parent when present, then the
/// description and the sub-issues when asked for and present. `estimate_text` is
/// the issue's estimate as the float's `Display` writes it.
pub fn render_issue_human(issue: &Issue, show_description: bool, show_subtasks: bool, estimate_text: Option<&str>) -> (r: String)
    ensures
        r@ == issue_human_text(*issue, show_description, show_subtasks, opt_str_view(estimate_text)),
{
    let head = head_lines_of(issue);
    let assignee = match &issue.assignee_name {
        Some(n) => optional_line_of("Assignee:   ", Some(n.as_str())),
        None => optional_line_of("Assignee:   ", None),
    };
    let labels = labels_line_of(issue);
    let due = match &issue.due_date {
        Some(d) => optional_line_of("Due date:   ", Some(d.as_str())),
        None => optional_line_of("Due date:   ", None),
    };
    let estimate = optional_line_of("Estimate:   ", estimate_text);
    let parent = parent_line_of(issue);
    let description = description_section_of(issue, show_description);
    let subtasks = subtasks_section_of(issue, show_subtasks);
    head.concat(assignee.as_str()).concat(labels.as_str()).concat(due.as_str()).concat(
        estimate.as_str(),
    ).concat(parent.as_str()).concat(description.as_str()).concat(subtasks.as_str())
}

/// The label ids named on the command line; empty ones are dropped.
pub fn label_ids_from(labels: &Vec<String>) -> (r: Vec<LabelId>)
    ensures
        label_views(r@) == crate::infrastructure::repositories::project_repository::non_empty(
            crate::text::views_of_strings(labels@),
        ),
{
    let mut out: Vec<LabelId> = Vec::new();
    let mut i: usize = 0;
    while i < labels.len()
        invariant
            i <= labels@.len(),
            label_views(out@) == crate::infrastructure::repositories::project_repository::non_empty(
                crate::text::views_of_strings(labels@.take(i as int)),
            ),
        decreases labels@.len() - i,
    {
        assert(crate::text::views_of_strings(labels@.take(i + 1)).drop_last()
            =~= crate::text::views_of_strings(labels@.take(i as int)));
        match LabelId::new(labels[i].clone()) {
            Ok(l) => {
                out.push(l);
                assert(label_views(out@) =~= crate::infrastructure::repositories::project_repository::non_empty(
                    crate::text::views_of_strings(labels@.take(i as int)),
                ).push(labels@[i as int]@));
            },
            Err(_) => {},
        }
        i = i + 1;
    }
    assert(labels@.take(labels@.len() as int) =~= labels@);
    out
}

/// The refusal of `--parent` together with `--no-parent`.
pub fn check_parent_flags(parent_given: bool, no_parent: bool) -> (r: Result<(), String>)
    ensures
        parent_given && no_parent ==> (r matches Err(m) && m@
            == "Error: --parent and --no-parent are mutually exclusive"@),
        !(parent_given && no_parent) ==> r is Ok,
{
    if parent_given && no_parent {
        Err(String::from_str("Error: --parent and --no-parent are mutually exclusive"))
    } else {
        Ok(())
    }
}

/// The project to create an issue in: the `--project` flag, else the
/// `LINEAR_PROJECT_ID` setting; with neither the command is refused.
pub fn project_for_create(flag: Option<String>, setting: Option<String>) -> (r: Result<String, String>)
    ensures
        flag matches Some(f) ==> r == Ok::<String, String>(f),
        setting matches Some(v) ==> (flag is None ==> r == Ok::<String, String>(v)),
        flag is None && setting is None ==> (r matches Err(m) && m@
            == "Error: --project is required (or set LINEAR_PROJECT_ID)"@),
{
    match flag {
        Some(f) => Ok(f),
        None => match setting {
            Some(v) => Ok(v),
            None => Err(String::from_str("Error: --project is required (or set LINEAR_PROJECT_ID)")),
        },
    }
}

/// One line of a listing: identifier, title, state and priority in columns of
/// 10, 40, 15 and 10 characters, then the assignee's name ("—" when there is
/// none).
pub open spec fn list_row_text(i: Issue) -> Seq<char> {
    padded(i.identifier@, 10) + " "@ + padded(i.title@, 40) + " "@ + padded(i.state.name@, 15)
        + " "@ + padded(label_of(i.priority), 10) + " "@ + (match i.assignee_name {
        Some(n) => n@,
        None => "\u{2014}"@,
    })
}

/// One line of a listing, as `list_row_text` describes it.
pub fn issue_list_row(issue: &Issue) -> (r: String)
    ensures
        r@ == list_row_text(*issue),
{
    let assignee = match &issue.assignee_name {
        Some(n) => n.as_str(),
        None => "\u{2014}",
    };
    pad_right(issue.identifier.as_str(), 10).concat(" ").concat(
        pad_right(issue.title.as_str(), 40).as_str(),
    ).concat(" ").concat(pad_right(issue.state.name.as_str(), 15).as_str()).concat(" ").concat(
        pad_right(priority_label(issue.priority), 10).as_str(),
    ).concat(" ").concat(assignee)
}

/// The closing line of a listing: how many issues were shown, and how to see
/// more when more follow.
pub fn showing_line(total: usize, has_next_page: bool) -> (r: String)
    ensures
        has_next_page ==> r@ == "\nShowing "@ + decimal(total as nat)
            + " issues. Use --all to retrieve all, or --cursor <token> to page."@,
        !has_next_page ==> r@ == "\nShowing "@ + decimal(total as nat) + " issues."@,
{
    let n = u64_decimal(total as u64);
    if has_next_page {
        String::from_str("\nShowing ").concat(n.as_str()).concat(
            " issues. Use --all to retrieve all, or --cursor <token> to page.",
        )
    } else {
        String::from_str("\nShowing ").concat(n.as_str()).concat(" issues.")
    }
}

} // verus!
