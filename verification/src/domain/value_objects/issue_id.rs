//! Identifier of an issue (a UUID or a display id such as `ENG-42`).
use vstd::prelude::*;

use crate::domain::errors::DomainError;

verus! {

/// Identifier of an issue (a UUID or a display id such as `ENG-42`); never empty.
#[derive(Debug, PartialEq, Eq)]
pub struct IssueId(String);

impl View for IssueId {
    type V = Seq<char>;

    closed spec fn view(&self) -> Seq<char> {
        self.0@
    }
}

impl IssueId {
    #[verifier::type_invariant]
    closed spec fn inv(self) -> bool {
        self.0@.len() > 0
    }

    /// Wraps `value`; an empty string is refused.
    pub fn new(value: String) -> (r: Result<Self, DomainError>)
        ensures
            value@.len() > 0 ==> (r matches Ok(id) && id@ == value@),
            value@.len() == 0 ==> (r matches Err(DomainError::InvalidInput(m)) && m@
                == "issue id cannot be empty"@),
    {
        if value.as_str().is_empty() {
            return Err(DomainError::InvalidInput(String::from_str("issue id cannot be empty")));
        }
        Ok(IssueId(value))
    }

    /// The wrapped text.
    pub fn as_str(&self) -> (s: &str)
        ensures
            s@ == self@,
            s@.len() > 0,
    {
        proof {
            use_type_invariant(self);
        }
        self.0.as_str()
    }

    /// The wrapped text, as `Display` writes it.
    pub fn to_string(&self) -> (s: String)
        ensures
            s@ == self@,
    {
        self.0.clone()
    }
}

impl Clone for IssueId {
    fn clone(&self) -> (c: Self)
        ensures
            c == *self,
    {
        proof {
            use_type_invariant(self);
        }
        IssueId(self.0.clone())
    }
}

} // verus!
