//! Finding a usable credential: the environment first, then each store in turn.
use vstd::prelude::*;

use crate::domain::entities::auth_session::{AuthSession, CredentialSource};
use crate::domain::entities::workspace::Workspace;
use crate::domain::errors::AuthError;
use crate::domain::repositories::credential_store::StorageKind;
use crate::domain::value_objects::api_key::ApiKey;

verus! {

/// The next thing resolving the credential needs: the API's verdict on the
/// environment's key, store number `store` to report its credential, the API's
/// verdict on that credential, that store to drop a revoked key, or nothing more.
pub enum ResolveAuthAction {
    Finish(Result<AuthSession, AuthError>),
    ValidateEnv(AwaitEnvValidation),
    Retrieve(AwaitStoredKey),
    ValidateStored(AwaitStoredValidation),
    Remove(AwaitRevocation),
}

/// Waiting for the API to validate the key from the environment.
pub struct AwaitEnvValidation {
    pub api_key: ApiKey,
}

/// Waiting for store number `store` (of `count`) to report its credential.
pub struct AwaitStoredKey {
    pub store: usize,
    pub count: usize,
}

/// Waiting for the API to validate the key that store number `store` held.
pub struct AwaitStoredValidation {
    pub store: usize,
    pub count: usize,
    pub api_key: ApiKey,
}

/// Waiting for store number `store` to drop a key that the API refused.
pub struct AwaitRevocation {
    pub store: usize,
}

/// The credential source that a store of the given kind stands for.
pub open spec fn source_of(kind: StorageKind) -> CredentialSource {
    match kind {
        StorageKind::Keychain => CredentialSource::Keychain,
        StorageKind::File(p) => CredentialSource::File(p),
    }
}

/// The first step: a key from the environment is validated and no store is
/// consulted; otherwise the stores are asked in order, and with none the caller is
/// not authenticated.
pub fn resolve_auth(env_key: Option<ApiKey>, store_count: usize) -> (a: ResolveAuthAction)
    ensures
        env_key matches Some(k) ==> (a matches ResolveAuthAction::ValidateEnv(w) && w.api_key
            == k),
        env_key is None && store_count == 0 ==> a matches ResolveAuthAction::Finish(
            Err(AuthError::NotAuthenticated),
        ),
        env_key is None && store_count > 0 ==> (a matches ResolveAuthAction::Retrieve(w) && w.store
            == 0 && w.count == store_count),
{
    match env_key {
        Some(api_key) => ResolveAuthAction::ValidateEnv(AwaitEnvValidation { api_key }),
        None => if store_count == 0 {
            ResolveAuthAction::Finish(Err(AuthError::NotAuthenticated))
        } else {
            ResolveAuthAction::Retrieve(AwaitStoredKey { store: 0, count: store_count })
        },
    }
}

impl AwaitEnvValidation {
    /// A valid environment key makes a session sourced from the environment; an
    /// error is passed on.
    pub fn on_validated(self, verdict: Result<Workspace, AuthError>) -> (a: ResolveAuthAction)
        ensures
            verdict matches Err(e) ==> a == ResolveAuthAction::Finish(Err(e)),
            verdict matches Ok(ws) ==> (a matches ResolveAuthAction::Finish(Ok(s))
                && s.spec_api_key() == self.api_key && s.spec_workspace() == Some(ws)
                && s.spec_source() == CredentialSource::EnvVar),
    {
        match verdict {
            Err(e) => ResolveAuthAction::Finish(Err(e)),
            Ok(ws) => ResolveAuthAction::Finish(
                Ok(AuthSession::new(self.api_key, Some(ws), CredentialSource::EnvVar)),
            ),
        }
    }
}

impl AwaitStoredKey {
    /// A stored key is validated next; an empty store passes the question to the
    /// next store, and after the last one the caller is not authenticated; a store
    /// error is passed on.
    pub fn on_retrieved(self, held: Result<Option<ApiKey>, AuthError>) -> (a: ResolveAuthAction)
        ensures
            held matches Err(e) ==> a == ResolveAuthAction::Finish(Err(e)),
            held matches Ok(Some(k)) ==> (a matches ResolveAuthAction::ValidateStored(w) && w.store
                == self.store && w.count == self.count && w.api_key == k),
            held matches Ok(None) ==> if self.store + 1 < self.count {
                a matches ResolveAuthAction::Retrieve(w) && w.store == self.store + 1 && w.count
                    == self.count
            } else {
                a == ResolveAuthAction::Finish(Err(AuthError::NotAuthenticated))
            },
    {
        match held {
            Err(e) => ResolveAuthAction::Finish(Err(e)),
            Ok(Some(api_key)) => ResolveAuthAction::ValidateStored(
                AwaitStoredValidation { store: self.store, count: self.count, api_key },
            ),
            Ok(None) => if self.count > 0 && self.store < self.count - 1 {
                ResolveAuthAction::Retrieve(
                    AwaitStoredKey { store: self.store + 1, count: self.count },
                )
            } else {
                ResolveAuthAction::Finish(Err(AuthError::NotAuthenticated))
            },
        }
    }
}

impl AwaitStoredValidation {
    /// A valid stored key makes a session sourced from that store (of kind
    /// `kind`); a key the API calls invalid is removed from the store before the
    /// error is reported; any other error is passed on.
    pub fn on_validated(self, verdict: Result<Workspace, AuthError>, kind: StorageKind) -> (a:
        ResolveAuthAction)
        ensures
            verdict matches Ok(ws) ==> (a matches ResolveAuthAction::Finish(Ok(s))
                && s.spec_api_key() == self.api_key && s.spec_workspace() == Some(ws)
                && s.spec_source() == source_of(kind)),
            verdict == Err::<Workspace, AuthError>(AuthError::InvalidKey) ==> (
            a matches ResolveAuthAction::Remove(w) && w.store == self.store),
            verdict matches Err(e) ==> (e != AuthError::InvalidKey ==> a
                == ResolveAuthAction::Finish(Err(e))),
    {
        match verdict {
            Ok(ws) => {
                let source = match kind {
                    StorageKind::Keychain => CredentialSource::Keychain,
                    StorageKind::File(p) => CredentialSource::File(p),
                };
                ResolveAuthAction::Finish(Ok(AuthSession::new(self.api_key, Some(ws), source)))
            },
            Err(AuthError::InvalidKey) => ResolveAuthAction::Remove(
                AwaitRevocation { store: self.store },
            ),
            Err(e) => ResolveAuthAction::Finish(Err(e)),
        }
    }
}

impl AwaitRevocation {
    /// Whatever the removal answers, the key was invalid.
    pub fn on_removed(self, removed: Result<(), AuthError>) -> (a: ResolveAuthAction)
        ensures
            a == ResolveAuthAction::Finish(Err(AuthError::InvalidKey)),
    {
        ResolveAuthAction::Finish(Err(AuthError::InvalidKey))
    }
}

} // verus!
