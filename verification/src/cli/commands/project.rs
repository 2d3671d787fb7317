//! `linear project`: its arguments, and the checks and messages that need no
//! terminal.
use vstd::prelude::*;

use crate::dates::{iso_date_of, parse_iso_date};
use crate::text::{opt_str_view, pad_right, padded};

verus! {

/// The arguments of `linear project`.
#[derive(Debug)]
pub struct ProjectCommand {
    pub subcommand: ProjectSubcommand,
}

/// The subcommands of `linear project`.
#[derive(Debug)]
pub enum ProjectSubcommand {
    List(ListArgs),
    Get(GetArgs),
    Create(CreateArgs),
    Update(UpdateArgs),
    Archive(ArchiveArgs),
}

/// The arguments of `linear project list`.
#[derive(Debug)]
pub struct ListArgs {
    pub team: Option<String>,
    pub name: Option<String>,
    pub limit: u32,
    pub cursor: Option<String>,
    pub all: bool,
    pub output: Option<String>,
    pub json: bool,
    pub debug: bool,
}

/// The arguments of `linear project get`.
#[derive(Debug)]
pub struct GetArgs {
    pub id: String,
    pub output: Option<String>,
    pub json: bool,
    pub debug: bool,
}

/// The arguments of `linear project create`.
#[derive(Debug)]
pub struct CreateArgs {
    pub name: String,
    pub teams: Vec<String>,
    pub description: Option<String>,
    pub lead: Option<String>,
    pub start_date: Option<String>,
    pub target_date: Option<String>,
    pub dry_run: bool,
    pub output: Option<String>,
    pub json: bool,
    pub debug: bool,
}

/// The arguments of `linear project update`.
#[derive(Debug)]
pub struct UpdateArgs {
    pub id: String,
    pub name: Option<String>,
    pub description: Option<String>,
    pub state: Option<String>,
    pub lead: Option<String>,
    pub start_date: Option<String>,
    pub target_date: Option<String>,
    pub dry_run: bool,
    pub output: Option<String>,
    pub json: bool,
    pub debug: bool,
}

/// The arguments of `linear project archive`.
#[derive(Debug)]
pub struct ArchiveArgs {
    pub id: String,
    pub dry_run: bool,
    pub output: Option<String>,
    pub json: bool,
    pub debug: bool,
}

/// The `--debug` flag of whichever subcommand was given.
pub open spec fn spec_debug(sub: ProjectSubcommand) -> bool {
    match sub {
        ProjectSubcommand::List(a) => a.debug,
        ProjectSubcommand::Get(a) => a.debug,
        ProjectSubcommand::Create(a) => a.debug,
        ProjectSubcommand::Update(a) => a.debug,
        ProjectSubcommand::Archive(a) => a.debug,
    }
}

impl ProjectCommand {
    /// The verbosity the subcommand's flags ask for: 2 (debug tracing) with
    /// `--debug`, else 0.
    pub fn verbosity(&self) -> (v: u8)
        ensures
            spec_debug(self.subcommand) ==> v == 2,
            !spec_debug(self.subcommand) ==> v == 0,
    {
        let debug = match &self.subcommand {
            ProjectSubcommand::List(a) => a.debug,
            ProjectSubcommand::Get(a) => a.debug,
            ProjectSubcommand::Create(a) => a.debug,
            ProjectSubcommand::Update(a) => a.debug,
            ProjectSubcommand::Archive(a) => a.debug,
        };
        if debug {
            2
        } else {
            0
        }
    }
}

/// The message for a date flag whose value is no date.
pub open spec fn invalid_date_message(s: Seq<char>, flag: Seq<char>) -> Seq<char> {
    "invalid date for "@ + flag + ": '"@ + s + "'; expected YYYY-MM-DD"@
}

/// The date of a date flag, given what reading `s` as a date gave: the date's
/// canonical text, or the refusal naming the flag and the text.
pub fn date_or_error(parsed: Option<String>, s: &str, flag: &str) -> (r: Result<String, String>)
    ensures
        parsed matches Some(d) ==> r == Ok::<String, String>(d),
        parsed is None ==> (r matches Err(m) && m@ == invalid_date_message(s@, flag@)),
{
    match parsed {
        Some(d) => Ok(d),
        None => Err(
            String::from_str("invalid date for ").concat(flag).concat(": '").concat(s).concat(
                "'; expected YYYY-MM-DD",
            ),
        ),
    }
}

/// Reads the value `s` of the date flag `flag` as a `YYYY-MM-DD` date.
pub fn parse_date(s: &str, flag: &str) -> (r: Result<String, String>)
    ensures
        iso_date_of(s@) matches Some(d) ==> (r matches Ok(x) && x@ == d),
        iso_date_of(s@) is None ==> (r matches Err(m) && m@ == invalid_date_message(s@, flag@)),
{
    let parsed = parse_iso_date(s);
    date_or_error(parsed, s, flag)
}

/// Reads an optional date flag; an absent flag gives no date.
pub fn parse_optional_date(s: &Option<String>, flag: &str) -> (r: Result<Option<String>, String>)
    ensures
        s is None ==> r == Ok::<Option<String>, String>(None),
        s matches Some(t) ==> (match iso_date_of(t@) {
            Some(d) => r matches Ok(Some(x)) && x@ == d,
            None => r matches Err(m) && m@ == invalid_date_message(t@, flag@),
        }),
{
    match s {
        Some(t) => match parse_date(t.as_str(), flag) {
            Ok(d) => Ok(Some(d)),
            Err(m) => Err(m),
        },
        None => Ok(None),
    }
}

/// The message after a project was created.
pub fn created_message(name: &str, slug_id: &str) -> (r: String)
    ensures
        r@ == "Created project: \""@ + name@ + "\" ("@ + slug_id@ + ")"@,
{
    String::from_str("Created project: \"").concat(name).concat("\" (").concat(slug_id).concat(")")
}

/// The message after a project was updated.
pub fn updated_message(slug_id: &str, state: &str) -> (r: String)
    ensures
        r@ == "Updated project "@ + slug_id@ + ": state \u{2192} "@ + state@,
{
    String::from_str("Updated project ").concat(slug_id).concat(": state \u{2192} ").concat(state)
}

/// The message after an archive request, whether the project was archived now or
/// already.
pub fn archived_message(id: &str, already_archived: bool) -> (r: String)
    ensures
        already_archived ==> r@ == "Project "@ + id@ + " is already archived"@,
        !already_archived ==> r@ == "Archived project "@ + id@,
{
    if already_archived {
        String::from_str("Project ").concat(id).concat(" is already archived")
    } else {
        String::from_str("Archived project ").concat(id)
    }
}

/// One line of a project listing: name, slug and state in columns of 35, 22
/// and 12 characters, then the target date ("—" when there is none).
pub open spec fn project_row_text(name: Seq<char>, slug_id: Seq<char>, state: Seq<char>, target_date: Option<Seq<char>>) -> Seq<char> {
    "  "@ + padded(name, 35) + " "@ + padded(slug_id, 22) + " "@ + padded(state, 12) + " "@
        + (match target_date {
        Some(d) => d,
        None => "\u{2014}"@,
    })
}

/// One line of a project listing, as `project_row_text` describes it.
pub fn project_list_row(name: &str, slug_id: &str, state: &str, target_date: Option<&str>) -> (r:
    String)
    ensures
        r@ == project_row_text(name@, slug_id@, state@, opt_str_view(target_date)),
{
    let date = match target_date {
        Some(d) => d,
        None => "\u{2014}",
    };
    String::from_str("  ").concat(pad_right(name, 35).as_str()).concat(" ").concat(
        pad_right(slug_id, 22).as_str(),
    ).concat(" ").concat(pad_right(state, 12).as_str()).concat(" ").concat(date)
}

/// The refusal of an update that changes nothing.
pub const NO_UPDATE_FLAGS: &'static str = "error: at least one update flag must be provided";

/// The hint after a page of projects when more follow.
pub fn more_results_hint(has_next_page: bool, end_cursor: Option<&str>) -> (r: Option<String>)
    ensures
        has_next_page && end_cursor is Some ==> (r matches Some(m) && m@ == "\nMore results \u{2014} run with --cursor "@
            + end_cursor->0@ + " for next page"@),
        !(has_next_page && end_cursor is Some) ==> r is None,
{
    if has_next_page {
        match end_cursor {
            Some(c) => Some(
                String::from_str("\nMore results \u{2014} run with --cursor ").concat(c).concat(
                    " for next page",
                ),
            ),
            None => None,
        }
    } else {
        None
    }
}

} // verus!
