//! A Linear team.
use vstd::prelude::*;

use crate::domain::errors::DomainError;
use crate::domain::value_objects::team_id::TeamId;
use crate::text::{all_upper, char_is_upper, chars_of};

verus! {

/// A team key: one to five ASCII upper-case letters.
pub open spec fn valid_team_key(k: Seq<char>) -> bool {
    0 < k.len() <= 5 && all_upper(k)
}

/// A team with a validated key.
#[derive(Debug)]
pub struct Team {
    id: TeamId,
    name: String,
    key: String,
}

impl Team {
    /// The team's identifier.
    pub closed spec fn spec_id(&self) -> Seq<char> {
        self.id@
    }

    /// The team's display name.
    pub closed spec fn spec_name(&self) -> Seq<char> {
        self.name@
    }

    /// The team's key.
    pub closed spec fn spec_key(&self) -> Seq<char> {
        self.key@
    }

    /// Builds a team; the key must be one to five ASCII upper-case letters.
    pub fn new(id: TeamId, name: String, key: String) -> (r: Result<Self, DomainError>)
        ensures
            key@.len() == 0 ==> (r matches Err(DomainError::InvalidInput(m)) && m@
                == "team key cannot be empty"@),
            key@.len() > 0 && !valid_team_key(key@) ==> (r matches Err(
                DomainError::InvalidInput(m),
            ) && m@ == "team key must be 1–5 uppercase ASCII letters"@),
            valid_team_key(key@) ==> (r matches Ok(t) && t.spec_id() == id@ && t.spec_name()
                == name@ && t.spec_key() == key@),
    {
        let chars = chars_of(key.as_str());
        if chars.len() == 0 {
            return Err(DomainError::InvalidInput(String::from_str("team key cannot be empty")));
        }
        let mut all = true;
        let mut i: usize = 0;
        while i < chars.len()
            invariant
                chars@ == key@,
                i <= chars@.len(),
                all == (forall|k: int| 0 <= k < i ==> crate::text::is_upper(#[trigger] chars@[k])),
            decreases chars@.len() - i,
        {
            if !char_is_upper(chars[i]) {
                all = false;
            }
            i = i + 1;
        }
        if !(chars.len() <= 5 && all) {
            return Err(
                DomainError::InvalidInput(
                    String::from_str("team key must be 1–5 uppercase ASCII letters"),
                ),
            );
        }
        Ok(Team { id, name, key })
    }

    /// The team's identifier.
    pub fn id(&self) -> (r: &TeamId)
        ensures
            r@ == self.spec_id(),
    {
        &self.id
    }

    /// The team's display name.
    pub fn name(&self) -> (r: &str)
        ensures
            r@ == self.spec_name(),
    {
        self.name.as_str()
    }

    /// The team's key.
    pub fn key(&self) -> (r: &str)
        ensures
            r@ == self.spec_key(),
    {
        self.key.as_str()
    }
}

} // verus!
