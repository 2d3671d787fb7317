//! Creating an issue.
use vstd::prelude::*;

use crate::application::errors::ApplicationError;
use crate::domain::entities::issue::{CreateIssueInput, Issue};
use crate::domain::errors::DomainError;
use crate::domain::value_objects::issue_id::IssueId;
use crate::num::{f64_bits_is_negative, f64_bits_negative};
use crate::text::{all_digits, all_upper, char_is_digit, char_is_upper, chars_of, is_digit, is_upper};

verus! {

/// `d` reads `YYYY-MM-DD`: ten characters, dashes at positions 4 and 7, ASCII
/// digits everywhere else (the form that splitting at dashes into parts of
/// lengths 4, 2 and 2, all digits, accepts).
pub open spec fn spec_is_date(d: Seq<char>) -> bool {
    &&& d.len() == 10
    &&& forall|i: int|
        0 <= i < 10 ==> if i == 4 || i == 7 {
            #[trigger] d[i] == '-'
        } else {
            is_digit(d[i])
        }
}

/// `s` reads `TEAM-123`: ASCII upper-case letters, one dash, ASCII digits, with
/// neither side empty.
pub open spec fn spec_is_display_id(s: Seq<char>) -> bool {
    exists|p: int|
        0 < p && p + 1 < s.len() && #[trigger] s[p] == '-' && all_upper(s.subrange(0, p))
            && all_digits(s.subrange(p + 1, s.len() as int))
}

/// The message of the error for a malformed due date.
pub open spec fn bad_date_message(d: Seq<char>) -> Seq<char> {
    "--due-date '"@ + d + "' must be in YYYY-MM-DD format"@
}

/// Checks that a due date reads `YYYY-MM-DD`.
pub fn validate_date(date: &str) -> (r: Result<(), ApplicationError>)
    ensures
        spec_is_date(date@) ==> r is Ok,
        !spec_is_date(date@) ==> (r matches Err(
            ApplicationError::Domain(DomainError::InvalidInput(m)),
        ) && m@ == bad_date_message(date@)),
{
    let v = chars_of(date);
    let mut ok = v.len() == 10;
    if ok {
        let mut i: usize = 0;
        while i < 10
            invariant
                v@ == date@,
                v@.len() == 10,
                i <= 10,
                ok == (forall|k: int|
                    0 <= k < i ==> if k == 4 || k == 7 {
                        #[trigger] v@[k] == '-'
                    } else {
                        is_digit(v@[k])
                    }),
            decreases 10 - i,
        {
            let c = v[i];
            let good = if i == 4 || i == 7 {
                c == '-'
            } else {
                char_is_digit(c)
            };
            if !good {
                ok = false;
            }
            i = i + 1;
        }
    }
    if ok {
        Ok(())
    } else {
        Err(
            ApplicationError::Domain(
                DomainError::InvalidInput(
                    String::from_str("--due-date '").concat(date).concat(
                        "' must be in YYYY-MM-DD format",
                    ),
                ),
            ),
        )
    }
}

/// Whether every character of `v` in `lo..hi` satisfies the digit test.
fn all_digits_in(v: &Vec<char>, lo: usize, hi: usize) -> (b: bool)
    requires
        lo <= hi <= v@.len(),
    ensures
        b == all_digits(v@.subrange(lo as int, hi as int)),
{
    let mut i = lo;
    while i < hi
        invariant
            lo <= i <= hi,
            hi <= v@.len(),
            forall|k: int| lo <= k < i ==> is_digit(#[trigger] v@[k]),
        decreases hi - i,
    {
        if !char_is_digit(v[i]) {
            assert(!is_digit(v@.subrange(lo as int, hi as int)[i - lo]));
            return false;
        }
        i = i + 1;
    }
    assert forall|k: int| 0 <= k < hi - lo implies is_digit(
        #[trigger] v@.subrange(lo as int, hi as int)[k],
    ) by {
        assert(v@.subrange(lo as int, hi as int)[k] == v@[lo + k]);
    }
    true
}

/// Whether every character of `v` in `lo..hi` is an ASCII upper-case letter.
fn all_upper_in(v: &Vec<char>, lo: usize, hi: usize) -> (b: bool)
    requires
        lo <= hi <= v@.len(),
    ensures
        b == all_upper(v@.subrange(lo as int, hi as int)),
{
    let mut i = lo;
    while i < hi
        invariant
            lo <= i <= hi,
            hi <= v@.len(),
            forall|k: int| lo <= k < i ==> is_upper(#[trigger] v@[k]),
        decreases hi - i,
    {
        if !char_is_upper(v[i]) {
            assert(!is_upper(v@.subrange(lo as int, hi as int)[i - lo]));
            return false;
        }
        i = i + 1;
    }
    assert forall|k: int| 0 <= k < hi - lo implies is_upper(
        #[trigger] v@.subrange(lo as int, hi as int)[k],
    ) by {
        assert(v@.subrange(lo as int, hi as int)[k] == v@[lo + k]);
    }
    true
}

/// Whether `v` reads `TEAM-123`, splitting at its last dash.
pub(crate) fn display_id_chars(v: &Vec<char>) -> (b: bool)
    ensures
        b == spec_is_display_id(v@),
{
    let n = v.len();
    // walk back to the last dash
    let mut i = n;
    while i > 0 && v[i - 1] != '-'
        invariant
            i <= n,
            n == v@.len(),
            forall|k: int| i <= k < n ==> #[trigger] v@[k] != '-',
        decreases i,
    {
        i = i - 1;
    }
    if i == 0 {
        assert forall|p: int| 0 < p && p + 1 < v@.len() implies #[trigger] v@[p] != '-' by {}
        return false;
    }
    let p = i - 1;
    assert(v@[p as int] == '-');
    assert(forall|k: int| p < k < n ==> #[trigger] v@[k] != '-');
    if p == 0 || p + 1 >= n {
        assert forall|q: int|
            0 < q && q + 1 < v@.len() && #[trigger] v@[q] == '-' implies !all_digits(
            v@.subrange(q + 1, v@.len() as int),
        ) by {
            assert(q < p);
            assert(v@.subrange(q + 1, v@.len() as int)[p - q - 1] == '-');
        }
        return false;
    }
    let digits = all_digits_in(v, p + 1, n);
    let upper = all_upper_in(v, 0, p);
    proof {
        assert forall|q: int|
            0 < q && q + 1 < v@.len() && #[trigger] v@[q] == '-' && q != p implies !all_digits(
            v@.subrange(q + 1, v@.len() as int),
        ) by {
            assert(q < p);
            assert(v@.subrange(q + 1, v@.len() as int)[p - q - 1] == '-');
        }
    }
    digits && upper
}

/// Whether `s` reads like `ENG-123`: upper-case letters, a dash, digits.
pub fn is_display_id(s: &str) -> (b: bool)
    ensures
        b == spec_is_display_id(s@),
{
    let v = chars_of(s);
    display_id_chars(&v)
}

/// The next thing creating an issue needs: the issue that a display-id parent
/// names (to learn its id), the creation itself, or nothing more.
#[derive(Debug)]
pub enum CreateIssueAction {
    Finish(Result<Issue, ApplicationError>),
    ResolveParent(PendingCreate),
    Create(CreateIssueInput),
}

/// A creation waiting for the parent named by `parent` to be fetched.
#[derive(Debug)]
pub struct PendingCreate {
    pub input: CreateIssueInput,
    pub parent: IssueId,
}

/// The error carrying a validation message.
pub open spec fn invalid_with(e: Result<Issue, ApplicationError>, m: Seq<char>) -> bool {
    e matches Err(ApplicationError::Domain(DomainError::InvalidInput(x))) && x@ == m
}

/// Validates a new issue, resolves a parent given by display id, then creates it.
pub struct CreateIssue;

impl CreateIssue {
    pub fn new() -> Self {
        CreateIssue
    }

    /// Refuses an empty title, a due date not in `YYYY-MM-DD` form and a negative
    /// estimate, in that order. A parent given by display id is resolved first
    /// unless this is a dry run; a dry run then stops with an error; otherwise
    /// the issue is created.
    pub fn start(&self, input: CreateIssueInput, dry_run: bool) -> (a: CreateIssueAction)
        ensures
            input.title@.len() == 0 ==> (a matches CreateIssueAction::Finish(e) && invalid_with(
                e,
                "--title is required"@,
            )),
            input.title@.len() > 0 && (input.due_date matches Some(d) && !spec_is_date(d@)) ==> (
            a matches CreateIssueAction::Finish(e) && invalid_with(
                e,
                bad_date_message(input.due_date->0@),
            )),
            input.title@.len() > 0 && !(input.due_date matches Some(d) && !spec_is_date(d@)) && (
            input.estimate matches Some(b) && f64_bits_negative(b)) ==> (
            a matches CreateIssueAction::Finish(e) && invalid_with(
                e,
                "--estimate must be non-negative"@,
            )),
            input.title@.len() > 0 && !(input.due_date matches Some(d) && !spec_is_date(d@)) && !(
            input.estimate matches Some(b) && f64_bits_negative(b)) ==> (if (input.parent_id matches Some(
                p,
            ) && spec_is_display_id(p@)) && !dry_run {
                a == CreateIssueAction::ResolveParent(
                    PendingCreate { input, parent: input.parent_id->0 },
                )
            } else if dry_run {
                a matches CreateIssueAction::Finish(e) && invalid_with(
                    e,
                    "dry-run: issue not created"@,
                )
            } else {
                a == CreateIssueAction::Create(input)
            }),
    {
        if input.title.as_str().is_empty() {
            return CreateIssueAction::Finish(
                Err(
                    ApplicationError::Domain(
                        DomainError::InvalidInput(String::from_str("--title is required")),
                    ),
                ),
            );
        }
        if let Some(date) = &input.due_date {
            if let Err(e) = validate_date(date.as_str()) {
                return CreateIssueAction::Finish(Err(e));
            }
        }
        if let Some(bits) = input.estimate {
            if f64_bits_is_negative(bits) {
                return CreateIssueAction::Finish(
                    Err(
                        ApplicationError::Domain(
                            DomainError::InvalidInput(
                                String::from_str("--estimate must be non-negative"),
                            ),
                        ),
                    ),
                );
            }
        }
        let parent = match &input.parent_id {
            Some(p) => if !dry_run && is_display_id(p.as_str()) {
                Some(p.clone())
            } else {
                None
            },
            None => None,
        };
        if let Some(parent) = parent {
            return CreateIssueAction::ResolveParent(PendingCreate { input, parent });
        }
        if dry_run {
            return CreateIssueAction::Finish(
                Err(
                    ApplicationError::Domain(
                        DomainError::InvalidInput(String::from_str("dry-run: issue not created")),
                    ),
                ),
            );
        }
        CreateIssueAction::Create(input)
    }

    /// After the parent was fetched: its id replaces the display id and the issue
    /// is created; a failed fetch stops with that error.
    pub fn on_parent(&self, pending: PendingCreate, fetched: Result<Issue, DomainError>) -> (a:
        CreateIssueAction)
        ensures
            fetched matches Err(e) ==> a == CreateIssueAction::Finish(
                Err(ApplicationError::Domain(e)),
            ),
            fetched matches Ok(issue) ==> (a matches CreateIssueAction::Create(input)
                && input.parent_id matches Some(p) && p@ == issue.id@ && input.title
                == pending.input.title && input.team_id == pending.input.team_id
                && input.project_id == pending.input.project_id && input.description
                == pending.input.description && input.priority == pending.input.priority
                && input.assignee_id == pending.input.assignee_id && input.label_ids
                == pending.input.label_ids && input.due_date == pending.input.due_date
                && input.estimate == pending.input.estimate),
    {
        match fetched {
            Err(e) => CreateIssueAction::Finish(Err(ApplicationError::Domain(e))),
            Ok(issue) => {
                let mut input = pending.input;
                input.parent_id = Some(issue.id().clone());
                CreateIssueAction::Create(input)
            },
        }
    }

    /// The repository's answer, its error wrapped as a domain error.
    pub fn on_created(&self, result: Result<Issue, DomainError>) -> (r: Result<Issue, ApplicationError>)
        ensures
            result matches Ok(i) ==> r == Ok::<Issue, ApplicationError>(i),
            result matches Err(e) ==> r == Err::<Issue, ApplicationError>(ApplicationError::Domain(e)),
    {
        match result {
            Ok(i) => Ok(i),
            Err(e) => Err(ApplicationError::Domain(e)),
        }
    }
}

} // verus!
