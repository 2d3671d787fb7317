//! The system keychain.
use vstd::prelude::*;

use crate::domain::errors::AuthError;
use crate::domain::repositories::credential_store::StorageKind;
use crate::domain::value_objects::api_key::ApiKey;

verus! {

/// The keychain service under which the key is kept.
pub const SERVICE: &'static str = "linear-cli";

/// The keychain user under which the key is kept.
pub const USERNAME: &'static str = "default";

/// The keychain entry of the key. Talking to the keychain happens outside the
/// library; the library reads the outcomes.
#[derive(Debug)]
pub struct KeyringCredentialStore;

/// What asking the keychain for the key gave: the stored secret, no entry, or
/// another failure with its message.
#[derive(Debug)]
pub enum SecretRead {
    Found(String),
    NoEntry,
    Failed(String),
}

/// What deleting the keychain entry gave: done, no entry, or another failure with
/// its message.
#[derive(Debug)]
pub enum SecretRemoval {
    Removed,
    NoEntry,
    Failed(String),
}

impl KeyringCredentialStore {
    /// The store.
    pub fn new() -> (s: Self) {
        KeyringCredentialStore
    }

    /// The store keeps the key in the keychain.
    pub fn kind(&self) -> (k: StorageKind)
        ensures
            k == StorageKind::Keychain,
    {
        StorageKind::Keychain
    }
}

/// Reads the outcome of asking the keychain: no entry means no key; a stored
/// empty secret, or another failure, means the keychain is unavailable.
pub fn interpret_keychain_read(read: SecretRead) -> (r: Result<Option<ApiKey>, AuthError>)
    ensures
        read matches SecretRead::Found(s) ==> (s@.len() > 0 ==> (r matches Ok(Some(k)) && k@
            == s@)) && (s@.len() == 0 ==> (r matches Err(AuthError::KeychainUnavailable(m))
            && m@ == "invalid input: api key cannot be empty"@)),
        read is NoEntry ==> r == Ok::<Option<ApiKey>, AuthError>(None),
        read matches SecretRead::Failed(m) ==> r == Err::<Option<ApiKey>, AuthError>(
            AuthError::KeychainUnavailable(m),
        ),
{
    match read {
        SecretRead::Found(s) => match ApiKey::new(s.as_str()) {
            Ok(k) => Ok(Some(k)),
            Err(e) => {
                proof {
                    reveal_strlit("invalid input: ");
                    reveal_strlit("api key cannot be empty");
                    reveal_strlit("invalid input: api key cannot be empty");
                    assert("invalid input: "@ + "api key cannot be empty"@
                        =~= "invalid input: api key cannot be empty"@);
                }
                Err(AuthError::KeychainUnavailable(e.to_string()))
            },
        },
        SecretRead::NoEntry => Ok(None),
        SecretRead::Failed(m) => Err(AuthError::KeychainUnavailable(m)),
    }
}

/// Reads the outcome of deleting the entry: deleting an entry that is not there
/// is no error.
pub fn interpret_keychain_removal(outcome: SecretRemoval) -> (r: Result<(), AuthError>)
    ensures
        !(outcome is Failed) ==> r is Ok,
        outcome matches SecretRemoval::Failed(m) ==> r == Err::<(), AuthError>(
            AuthError::KeychainUnavailable(m),
        ),
{
    match outcome {
        SecretRemoval::Removed => Ok(()),
        SecretRemoval::NoEntry => Ok(()),
        SecretRemoval::Failed(m) => Err(AuthError::KeychainUnavailable(m)),
    }
}

/// Reads the outcome of opening the entry or writing the secret: a failure means
/// the keychain is unavailable.
pub fn interpret_keychain_write(failure: Option<String>) -> (r: Result<(), AuthError>)
    ensures
        failure is None ==> r is Ok,
        failure matches Some(m) ==> r == Err::<(), AuthError>(AuthError::KeychainUnavailable(m)),
{
    match failure {
        None => Ok(()),
        Some(m) => Err(AuthError::KeychainUnavailable(m)),
    }
}

} // verus!
