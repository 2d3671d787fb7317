//! Signing in with an API key.
use vstd::prelude::*;

use crate::domain::entities::workspace::Workspace;
use crate::domain::errors::AuthError;
use crate::domain::value_objects::api_key::ApiKey;

verus! {

/// The next thing signing in needs: the store's current credential (to avoid
/// overwriting it), the API's verdict on the key, the store to keep the key, or
/// nothing more.
pub enum LoginAction {
    Finish(Result<Workspace, AuthError>),
    CheckExisting(AwaitExisting),
    Validate(AwaitValidation),
    Store(AwaitStore),
}

/// Waiting for the store's current credential.
pub struct AwaitExisting {
    pub api_key: ApiKey,
}

/// Waiting for the API to validate `api_key`.
pub struct AwaitValidation {
    pub api_key: ApiKey,
}

/// Waiting for the store to keep `api_key`, which validated into `workspace`.
pub struct AwaitStore {
    pub api_key: ApiKey,
    pub workspace: Workspace,
}

/// Validates an API key against the API and keeps it in a credential store.
pub struct LoginUseCase;

impl LoginUseCase {
    pub fn new() -> Self {
        LoginUseCase
    }

    /// Unless overwriting is allowed, the store is first asked whether it already
    /// holds a credential; otherwise the key goes straight to validation.
    pub fn start(&self, api_key: ApiKey, overwrite: bool) -> (a: LoginAction)
        ensures
            overwrite ==> (a matches LoginAction::Validate(w) && w.api_key == api_key),
            !overwrite ==> (a matches LoginAction::CheckExisting(w) && w.api_key == api_key),
    {
        if overwrite {
            LoginAction::Validate(AwaitValidation { api_key })
        } else {
            LoginAction::CheckExisting(AwaitExisting { api_key })
        }
    }
}

impl AwaitExisting {
    /// A credential already present stops the sign-in (reported as not
    /// authenticated) before the key is validated; none lets validation go on.
    pub fn on_retrieved(self, existing: Result<Option<ApiKey>, AuthError>) -> (a: LoginAction)
        ensures
            existing matches Err(e) ==> a == LoginAction::Finish(Err(e)),
            existing matches Ok(Some(_)) ==> a == LoginAction::Finish(
                Err(AuthError::NotAuthenticated),
            ),
            existing matches Ok(None) ==> (a matches LoginAction::Validate(w) && w.api_key
                == self.api_key),
    {
        match existing {
            Err(e) => LoginAction::Finish(Err(e)),
            Ok(Some(_)) => LoginAction::Finish(Err(AuthError::NotAuthenticated)),
            Ok(None) => LoginAction::Validate(AwaitValidation { api_key: self.api_key }),
        }
    }
}

impl AwaitValidation {
    /// A key that validates is stored next; a validation error ends the sign-in
    /// and the key is not stored.
    pub fn on_validated(self, verdict: Result<Workspace, AuthError>) -> (a: LoginAction)
        ensures
            verdict matches Err(e) ==> a == LoginAction::Finish(Err(e)),
            verdict matches Ok(ws) ==> (a matches LoginAction::Store(w) && w.api_key
                == self.api_key && w.workspace == ws),
    {
        match verdict {
            Err(e) => LoginAction::Finish(Err(e)),
            Ok(workspace) => LoginAction::Store(AwaitStore { api_key: self.api_key, workspace }),
        }
    }
}

impl AwaitStore {
    /// Once stored, the sign-in yields the workspace; a storage error is passed on.
    pub fn on_stored(self, stored: Result<(), AuthError>) -> (a: LoginAction)
        ensures
            stored matches Err(e) ==> a == LoginAction::Finish(Err(e)),
            stored is Ok ==> a == LoginAction::Finish(Ok(self.workspace)),
    {
        match stored {
            Err(e) => LoginAction::Finish(Err(e)),
            Ok(()) => LoginAction::Finish(Ok(self.workspace)),
        }
    }
}

} // verus!
