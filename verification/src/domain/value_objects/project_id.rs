//! A project reference as the user types it: a UUID or a slug.
use vstd::prelude::*;

use crate::domain::errors::DomainError;
use crate::text::{char_is_alnum, char_is_alpha, char_is_hex, chars_of, is_alnum, is_alpha, is_hex};

verus! {

/// Position `i` of a UUID holds a dash.
pub open spec fn uuid_dash_at(i: int) -> bool {
    i == 8 || i == 13 || i == 18 || i == 23
}

/// `s` is a UUID in its 8-4-4-4-12 hexadecimal form (either case).
pub open spec fn spec_is_uuid(s: Seq<char>) -> bool {
    &&& s.len() == 36
    &&& forall|i: int|
        0 <= i < 36 ==> if uuid_dash_at(i) {
            #[trigger] s[i] == '-'
        } else {
            is_hex(s[i])
        }
}

/// `s` starts with an ASCII letter and goes on with ASCII letters, digits and dashes.
pub open spec fn spec_is_slug(s: Seq<char>) -> bool {
    &&& s.len() > 0
    &&& is_alpha(s[0])
    &&& forall|i: int| 1 <= i < s.len() ==> is_alnum(#[trigger] s[i]) || s[i] == '-'
}

/// Whether `s` is a UUID in its 8-4-4-4-12 hexadecimal form.
pub fn is_uuid(s: &str) -> (b: bool)
    ensures
        b == spec_is_uuid(s@),
{
    let v = chars_of(s);
    if v.len() != 36 {
        return false;
    }
    let mut i: usize = 0;
    while i < 36
        invariant
            v@ == s@,
            v@.len() == 36,
            i <= 36,
            forall|k: int|
                0 <= k < i ==> if uuid_dash_at(k) {
                    #[trigger] v@[k] == '-'
                } else {
                    is_hex(v@[k])
                },
        decreases 36 - i,
    {
        let c = v[i];
        if i == 8 || i == 13 || i == 18 || i == 23 {
            if c != '-' {
                return false;
            }
        } else if !char_is_hex(c) {
            return false;
        }
        i = i + 1;
    }
    true
}

/// Whether `s` is a slug: an ASCII letter, then ASCII letters, digits and dashes.
pub fn is_slug(s: &str) -> (b: bool)
    ensures
        b == spec_is_slug(s@),
{
    let v = chars_of(s);
    if v.len() == 0 || !char_is_alpha(v[0]) {
        return false;
    }
    let mut i: usize = 1;
    while i < v.len()
        invariant
            v@ == s@,
            1 <= i <= v@.len(),
            forall|k: int| 1 <= k < i ==> is_alnum(#[trigger] v@[k]) || v@[k] == '-',
        decreases v@.len() - i,
    {
        let c = v[i];
        if !(char_is_alnum(c) || c == '-') {
            return false;
        }
        i = i + 1;
    }
    true
}

/// A project reference: the project's UUID, or its URL slug.
#[derive(Debug, PartialEq, Eq)]
pub enum ProjectId {
    Uuid(String),
    Slug(String),
}

/// The message of the error for text that is neither a UUID nor a slug.
pub open spec fn unrecognised_project_id(s: Seq<char>) -> Seq<char> {
    "unrecognised project id '"@ + s + "'; expected a UUID or a slug (e.g. 'q3-platform')"@
}

impl ProjectId {
    /// The text of the reference, whichever form it has.
    pub open spec fn text(&self) -> Seq<char> {
        match self {
            ProjectId::Uuid(s) => s@,
            ProjectId::Slug(s) => s@,
        }
    }

    /// Reads a project reference: a UUID when `s` has the UUID form, else a slug
    /// when it has the slug form; anything else is refused.
    pub fn parse(s: &str) -> (r: Result<Self, DomainError>)
        ensures
            s@.len() == 0 ==> (r matches Err(DomainError::InvalidInput(m)) && m@
                == "project id cannot be empty"@),
            spec_is_uuid(s@) ==> (r matches Ok(ProjectId::Uuid(u)) && u@ == s@),
            s@.len() > 0 && !spec_is_uuid(s@) && spec_is_slug(s@) ==> (r matches Ok(
                ProjectId::Slug(g),
            ) && g@ == s@),
            s@.len() > 0 && !spec_is_uuid(s@) && !spec_is_slug(s@) ==> (r matches Err(
                DomainError::InvalidInput(m),
            ) && m@ == unrecognised_project_id(s@)),
            r matches Ok(id) ==> reads_as(s@, id),
    {
        if s.is_empty() {
            return Err(DomainError::InvalidInput(String::from_str("project id cannot be empty")));
        }
        if is_uuid(s) {
            return Ok(ProjectId::Uuid(String::from_str(s)));
        }
        if is_slug(s) {
            return Ok(ProjectId::Slug(String::from_str(s)));
        }
        Err(
            DomainError::InvalidInput(
                String::from_str("unrecognised project id '").concat(s).concat(
                    "'; expected a UUID or a slug (e.g. 'q3-platform')",
                ),
            ),
        )
    }

    /// The UUID, when the reference is one.
    pub fn as_uuid(&self) -> (r: Option<&str>)
        ensures
            self is Uuid ==> (r matches Some(u) && u@ == self.text()),
            self is Slug ==> r is None,
    {
        match self {
            ProjectId::Uuid(s) => Some(s.as_str()),
            ProjectId::Slug(_) => None,
        }
    }

    /// The slug, when the reference is one.
    pub fn as_slug(&self) -> (r: Option<&str>)
        ensures
            self is Slug ==> (r matches Some(g) && g@ == self.text()),
            self is Uuid ==> r is None,
    {
        match self {
            ProjectId::Slug(s) => Some(s.as_str()),
            ProjectId::Uuid(_) => None,
        }
    }

    /// The text of the reference, as `Display` writes it.
    pub fn to_string(&self) -> (r: String)
        ensures
            r@ == self.text(),
    {
        match self {
            ProjectId::Uuid(s) => s.clone(),
            ProjectId::Slug(s) => s.clone(),
        }
    }
}

impl Clone for ProjectId {
    fn clone(&self) -> (c: Self)
        ensures
            c == *self,
    {
        match self {
            ProjectId::Uuid(s) => ProjectId::Uuid(s.clone()),
            ProjectId::Slug(s) => ProjectId::Slug(s.clone()),
        }
    }
}

/// `id` is the reference that reading `s` gives: a UUID when `s` has the UUID
/// form, else a slug when it has the slug form, holding `s` either way.
pub open spec fn reads_as(s: Seq<char>, id: ProjectId) -> bool {
    if spec_is_uuid(s) {
        id is Uuid && id.text() == s
    } else if spec_is_slug(s) {
        id is Slug && id.text() == s
    } else {
        false
    }
}

/// The reference holds text of its own form: a UUID holds a UUID, a slug holds a
/// slug that is not also a UUID.
pub open spec fn well_formed_id(id: ProjectId) -> bool {
    match id {
        ProjectId::Uuid(u) => spec_is_uuid(u@),
        ProjectId::Slug(g) => spec_is_slug(g@) && !spec_is_uuid(g@),
    }
}

/// A reference read from text shows that same text again, and holds text of its
/// own form.
pub proof fn lemma_read_shows_text(s: Seq<char>, id: ProjectId)
    requires
        reads_as(s, id),
    ensures
        id.text() == s,
        well_formed_id(id),
{
}

/// A reference that holds text of its own form is what reading its own text
/// gives back.
pub proof fn lemma_text_reads_back(id: ProjectId)
    requires
        well_formed_id(id),
    ensures
        reads_as(id.text(), id),
{
}

} // verus!
