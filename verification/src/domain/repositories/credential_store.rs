//! Credential stores: where the API key is kept between runs.
use vstd::prelude::*;

use crate::domain::errors::AuthError;
use crate::domain::value_objects::api_key::ApiKey;

verus! {

/// The kind of a credential store: the system keychain, or a file at a path.
#[derive(Debug, PartialEq, Eq)]
pub enum StorageKind {
    Keychain,
    File(String),
}

impl Clone for StorageKind {
    fn clone(&self) -> (c: Self)
        ensures
            c == *self,
    {
        match self {
            StorageKind::Keychain => StorageKind::Keychain,
            StorageKind::File(p) => StorageKind::File(p.clone()),
        }
    }
}

/// A place that keeps the API key between runs. Its operations reach the system
/// keychain or the disk, so the library states nothing of them; the use cases
/// take their outcomes as events.
pub trait CredentialStore {
    /// Keeps `key`, replacing what was kept.
    fn store(&self, key: &ApiKey) -> Result<(), AuthError>;

    /// The kept key, if any.
    fn retrieve(&self) -> Result<Option<ApiKey>, AuthError>;

    /// Forgets the kept key; forgetting nothing is no error.
    fn remove(&self) -> Result<(), AuthError>;

    /// Where the store keeps the key.
    fn kind(&self) -> StorageKind;
}

} // verus!
