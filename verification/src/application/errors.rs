//! The error type that use cases return.
use vstd::prelude::*;

use crate::domain::errors::{AuthError, DomainError};

verus! {

/// A domain or authentication failure, or something unexpected.
#[derive(Debug, PartialEq, Eq)]
pub enum ApplicationError {
    Domain(DomainError),
    Auth(AuthError),
    Unexpected(String),
}

impl ApplicationError {
    /// The human-readable message: that of the wrapped error, unchanged.
    pub open spec fn message(&self) -> Seq<char> {
        match self {
            ApplicationError::Domain(e) => e.message(),
            ApplicationError::Auth(e) => e.message(),
            ApplicationError::Unexpected(m) => "unexpected error: "@ + m@,
        }
    }

    /// Renders the error as its message.
    pub fn to_string(&self) -> (r: String)
        ensures
            r@ == self.message(),
    {
        match self {
            ApplicationError::Domain(e) => e.to_string(),
            ApplicationError::Auth(e) => e.to_string(),
            ApplicationError::Unexpected(m) => String::from_str("unexpected error: ").concat(
                m.as_str(),
            ),
        }
    }
}

impl From<DomainError> for ApplicationError {
    fn from(e: DomainError) -> (r: ApplicationError)
        ensures
            r == ApplicationError::Domain(e),
    {
        ApplicationError::Domain(e)
    }
}

impl vstd::std_specs::convert::FromSpecImpl<DomainError> for ApplicationError {
    open spec fn obeys_from_spec() -> bool {
        true
    }

    open spec fn from_spec(e: DomainError) -> ApplicationError {
        ApplicationError::Domain(e)
    }
}

impl From<AuthError> for ApplicationError {
    fn from(e: AuthError) -> (r: ApplicationError)
        ensures
            r == ApplicationError::Auth(e),
    {
        ApplicationError::Auth(e)
    }
}

impl vstd::std_specs::convert::FromSpecImpl<AuthError> for ApplicationError {
    open spec fn obeys_from_spec() -> bool {
        true
    }

    open spec fn from_spec(e: AuthError) -> ApplicationError {
        ApplicationError::Auth(e)
    }
}

} // verus!
