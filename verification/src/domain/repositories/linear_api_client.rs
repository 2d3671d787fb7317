//! The API as seen by the authentication use cases.
use vstd::prelude::*;

use crate::domain::entities::workspace::Workspace;
use crate::domain::errors::AuthError;
use crate::domain::value_objects::api_key::ApiKey;

verus! {

/// Asks the API whether a key is valid. The call goes over the network, so the
/// library states nothing of it; the use cases take its outcome as an event.
pub trait LinearApiClient {
    /// The workspace that `key` belongs to, or why the key was not accepted.
    fn validate_api_key(&self, key: &ApiKey) -> Result<Workspace, AuthError>;
}

} // verus!
