//! An authenticated session and where its key came from.
use vstd::prelude::*;

use crate::domain::entities::workspace::Workspace;
use crate::domain::value_objects::api_key::ApiKey;

verus! {

/// Where the API key of a session was found.
#[derive(Debug, PartialEq, Eq)]
pub enum CredentialSource {
    EnvVar,
    Keychain,
    /// A credential file, by its path.
    File(String),
}

/// An API key together with its workspace and its origin.
pub struct AuthSession {
    api_key: ApiKey,
    workspace: Option<Workspace>,
    source: CredentialSource,
}

impl AuthSession {
    /// The session's key.
    pub closed spec fn spec_api_key(&self) -> ApiKey {
        self.api_key
    }

    /// The session's workspace, when known.
    pub closed spec fn spec_workspace(&self) -> Option<Workspace> {
        self.workspace
    }

    /// Where the key came from.
    pub closed spec fn spec_source(&self) -> CredentialSource {
        self.source
    }

    /// Builds a session.
    pub fn new(api_key: ApiKey, workspace: Option<Workspace>, source: CredentialSource) -> (r:
        Self)
        ensures
            r.spec_api_key() == api_key,
            r.spec_workspace() == workspace,
            r.spec_source() == source,
    {
        AuthSession { api_key, workspace, source }
    }

    /// The session's key.
    pub fn api_key(&self) -> (r: &ApiKey)
        ensures
            *r == self.spec_api_key(),
    {
        &self.api_key
    }

    /// The session's workspace, when known.
    pub fn workspace(&self) -> (r: Option<&Workspace>)
        ensures
            r matches Some(w) ==> self.spec_workspace() == Some(*w),
            r is None ==> self.spec_workspace() is None,
    {
        self.workspace.as_ref()
    }

    /// Where the key came from.
    pub fn source(&self) -> (r: &CredentialSource)
        ensures
            *r == self.spec_source(),
    {
        &self.source
    }
}

} // verus!
