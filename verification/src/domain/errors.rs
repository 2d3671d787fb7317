//! Errors raised by the domain layer and by authentication.
use vstd::prelude::*;

verus! {

/// Failures of authentication and credential handling.
#[derive(Debug, PartialEq, Eq)]
pub enum AuthError {
    NotAuthenticated,
    InvalidKey,
    ValidationFailed(String),
    NetworkError(String),
    KeychainUnavailable(String),
    FileError(String),
}

impl AuthError {
    /// The human-readable message of the error.
    pub open spec fn message(&self) -> Seq<char> {
        match self {
            AuthError::NotAuthenticated =>
                "no credentials found; run `linear auth login` or set LINEAR_API_KEY"@,
            AuthError::InvalidKey => "invalid or expired API key"@,
            AuthError::ValidationFailed(m) => "API key validation failed: "@ + m@,
            AuthError::NetworkError(m) => "could not reach Linear API: "@ + m@,
            AuthError::KeychainUnavailable(m) => "system keychain is unavailable: "@ + m@
                + "; re-run with --store-file to use file storage"@,
            AuthError::FileError(m) => "credential file error: "@ + m@,
        }
    }

    /// Renders the error as its message.
    pub fn to_string(&self) -> (r: String)
        ensures
            r@ == self.message(),
    {
        match self {
            AuthError::NotAuthenticated => String::from_str(
                "no credentials found; run `linear auth login` or set LINEAR_API_KEY",
            ),
            AuthError::InvalidKey => String::from_str("invalid or expired API key"),
            AuthError::ValidationFailed(m) => String::from_str("API key validation failed: ").concat(
                m.as_str(),
            ),
            AuthError::NetworkError(m) => String::from_str("could not reach Linear API: ").concat(
                m.as_str(),
            ),
            AuthError::KeychainUnavailable(m) => String::from_str(
                "system keychain is unavailable: ",
            ).concat(m.as_str()).concat("; re-run with --store-file to use file storage"),
            AuthError::FileError(m) => String::from_str("credential file error: ").concat(
                m.as_str(),
            ),
        }
    }
}

/// Failures of domain validation and of repository lookups.
#[derive(Debug, PartialEq, Eq)]
pub enum DomainError {
    NotFound(String),
    InvalidInput(String),
    NotImplemented,
}

impl DomainError {
    /// The human-readable message of the error.
    pub open spec fn message(&self) -> Seq<char> {
        match self {
            DomainError::NotFound(m) => "not found: "@ + m@,
            DomainError::InvalidInput(m) => "invalid input: "@ + m@,
            DomainError::NotImplemented => "not implemented"@,
        }
    }

    /// Renders the error as its message.
    pub fn to_string(&self) -> (r: String)
        ensures
            r@ == self.message(),
    {
        match self {
            DomainError::NotFound(m) => String::from_str("not found: ").concat(m.as_str()),
            DomainError::InvalidInput(m) => String::from_str("invalid input: ").concat(m.as_str()),
            DomainError::NotImplemented => String::from_str("not implemented"),
        }
    }

    /// An `InvalidInput` error carrying the given text.
    pub fn invalid(m: &str) -> (e: DomainError)
        ensures
            e matches DomainError::InvalidInput(s) && s@ == m@,
    {
        DomainError::InvalidInput(String::from_str(m))
    }
}

} // verus!
