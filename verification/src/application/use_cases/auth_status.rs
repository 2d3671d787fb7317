//! Reporting whether the caller is authenticated.
use vstd::prelude::*;

use crate::application::use_cases::resolve_auth::{resolve_auth, ResolveAuthAction};
use crate::domain::errors::AuthError;
use crate::domain::value_objects::api_key::ApiKey;

verus! {

/// Reports the session that credential resolution finds.
pub struct AuthStatusUseCase;

impl AuthStatusUseCase {
    pub fn new() -> Self {
        AuthStatusUseCase
    }

    /// Resolves the credential exactly as `resolve_auth` does.
    pub fn start(&self, env_key: Option<ApiKey>, store_count: usize) -> (a: ResolveAuthAction)
        ensures
            env_key matches Some(k) ==> (a matches ResolveAuthAction::ValidateEnv(w) && w.api_key
                == k),
            env_key is None && store_count == 0 ==> a matches ResolveAuthAction::Finish(
                Err(AuthError::NotAuthenticated),
            ),
            env_key is None && store_count > 0 ==> (a matches ResolveAuthAction::Retrieve(w)
                && w.store == 0 && w.count == store_count),
    {
        resolve_auth(env_key, store_count)
    }
}

} // verus!
