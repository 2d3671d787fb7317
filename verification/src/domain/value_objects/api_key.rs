//! The secret key that authenticates requests to Linear.
use vstd::prelude::*;

use crate::domain::errors::DomainError;

verus! {

/// A Linear API key; never empty. Its renderings never show the key.
#[derive(PartialEq, Eq)]
pub struct ApiKey(String);

impl View for ApiKey {
    type V = Seq<char>;

    closed spec fn view(&self) -> Seq<char> {
        self.0@
    }
}

impl ApiKey {
    #[verifier::type_invariant]
    closed spec fn inv(self) -> bool {
        self.0@.len() > 0
    }

    /// Wraps `raw`; an empty key is refused.
    pub fn new(raw: &str) -> (r: Result<Self, DomainError>)
        ensures
            raw@.len() > 0 ==> (r matches Ok(k) && k@ == raw@),
            raw@.len() == 0 ==> (r matches Err(DomainError::InvalidInput(m)) && m@
                == "api key cannot be empty"@),
    {
        if raw.is_empty() {
            return Err(DomainError::InvalidInput(String::from_str("api key cannot be empty")));
        }
        Ok(ApiKey(String::from_str(raw)))
    }

    /// The raw key, for the `Authorization` header.
    pub fn as_str(&self) -> (s: &str)
        ensures
            s@ == self@,
            s@.len() > 0,
    {
        proof {
            use_type_invariant(self);
        }
        self.0.as_str()
    }

    /// The `Display` rendering: the key is redacted.
    pub fn to_string(&self) -> (s: String)
        ensures
            s@ == "[REDACTED]"@,
    {
        String::from_str("[REDACTED]")
    }

    /// The `Debug` rendering: the key is redacted.
    pub fn debug_string(&self) -> (s: String)
        ensures
            s@ == "ApiKey([REDACTED])"@,
    {
        String::from_str("ApiKey([REDACTED])")
    }
}

impl Clone for ApiKey {
    fn clone(&self) -> (c: Self)
        ensures
            c == *self,
    {
        proof {
            use_type_invariant(self);
        }
        ApiKey(self.0.clone())
    }
}

} // verus!
