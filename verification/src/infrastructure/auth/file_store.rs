//! The plain-text credentials file.
use vstd::prelude::*;

use crate::domain::errors::AuthError;
use crate::domain::repositories::credential_store::StorageKind;
use crate::domain::value_objects::api_key::ApiKey;
use crate::text::{trim, trimmed};

verus! {

/// Where the credentials file lies under the home directory.
pub const CREDENTIALS_RELATIVE_PATH: &'static str = ".config/linear-cli/credentials";

/// The path that `std::path::Path::join` makes of `base` and `rel`.
pub uninterp spec fn path_join(base: Seq<char>, rel: Seq<char>) -> Seq<char>;

/// Calls `std::path::Path::new(base).join(rel)` and reads the result back as text.
/// Claimed of it: the result is `path_join(base, rel)`, a function of the two
/// texts alone. How separators are placed is left to that name.
#[verifier::external_body]
fn join_path(base: &str, rel: &str) -> (r: String)
    ensures
        r@ == path_join(base@, rel@),
{
    std::path::Path::new(base).join(rel).to_string_lossy().into_owned()
}

/// The credentials file at a path. Its reading and writing happen outside the
/// library; the library says where the file lies and reads the outcomes.
#[derive(Debug)]
pub struct FileCredentialStore {
    path: String,
}

/// What reading the credentials file gave: its text, no file, or another failure
/// with its message.
#[derive(Debug)]
pub enum FileRead {
    Text(String),
    NotFound,
    Failed(String),
}

/// What removing the credentials file gave: done, no file, or another failure
/// with its message.
#[derive(Debug)]
pub enum FileRemoval {
    Removed,
    NotFound,
    Failed(String),
}

impl FileCredentialStore {
    /// The file's path.
    pub closed spec fn spec_path(&self) -> Seq<char> {
        self.path@
    }

    /// The store at the default place: `.config/linear-cli/credentials` under the
    /// home directory, or under the current directory when there is no home.
    pub fn new(home: Option<String>) -> (s: Self)
        ensures
            home matches Some(h) ==> s.spec_path() == path_join(h@, CREDENTIALS_RELATIVE_PATH@),
            home is None ==> s.spec_path() == path_join("."@, CREDENTIALS_RELATIVE_PATH@),
    {
        let base = match home {
            Some(h) => h,
            None => String::from_str("."),
        };
        FileCredentialStore { path: join_path(base.as_str(), CREDENTIALS_RELATIVE_PATH) }
    }

    /// The store at the given path.
    pub fn with_path(path: String) -> (s: Self)
        ensures
            s.spec_path() == path@,
    {
        FileCredentialStore { path }
    }

    /// The file's path.
    pub fn path(&self) -> (p: &str)
        ensures
            p@ == self.spec_path(),
    {
        self.path.as_str()
    }

    /// The store keeps the key in its file.
    pub fn kind(&self) -> (k: StorageKind)
        ensures
            k matches StorageKind::File(p) && p@ == self.spec_path(),
    {
        StorageKind::File(self.path.clone())
    }

    /// The warning shown before the key is written in plain text.
    pub fn store_warning(&self) -> (m: String)
        ensures
            m@ == "Warning: storing credentials in plain-text file: "@ + self.spec_path(),
    {
        String::from_str("Warning: storing credentials in plain-text file: ").concat(
            self.path.as_str(),
        )
    }
}

/// The key that the file's text holds: the text without surrounding white space,
/// or none when nothing is left.
pub fn key_from_file_text(raw: &str) -> (r: Result<Option<ApiKey>, AuthError>)
    ensures
        trimmed(raw@).len() == 0 ==> r == Ok::<Option<ApiKey>, AuthError>(None),
        trimmed(raw@).len() > 0 ==> (r matches Ok(Some(k)) && k@ == trimmed(raw@)),
{
    let t = trim(raw);
    if t.as_str().is_empty() {
        return Ok(None);
    }
    match ApiKey::new(t.as_str()) {
        Ok(k) => Ok(Some(k)),
        Err(e) => Err(AuthError::FileError(e.to_string())),
    }
}

/// Reads the outcome of reading the file: no file means no key; another failure
/// is a file error with its message.
pub fn interpret_file_read(read: FileRead) -> (r: Result<Option<ApiKey>, AuthError>)
    ensures
        read matches FileRead::Text(t) ==> (trimmed(t@).len() == 0 ==> r == Ok::<
            Option<ApiKey>,
            AuthError,
        >(None)) && (trimmed(t@).len() > 0 ==> (r matches Ok(Some(k)) && k@ == trimmed(t@))),
        read is NotFound ==> r == Ok::<Option<ApiKey>, AuthError>(None),
        read matches FileRead::Failed(m) ==> r == Err::<Option<ApiKey>, AuthError>(
            AuthError::FileError(m),
        ),
{
    match read {
        FileRead::Text(t) => key_from_file_text(t.as_str()),
        FileRead::NotFound => Ok(None),
        FileRead::Failed(m) => Err(AuthError::FileError(m)),
    }
}

/// Reads the outcome of removing the file: removing a file that is not there is
/// no error.
pub fn interpret_file_removal(outcome: FileRemoval) -> (r: Result<(), AuthError>)
    ensures
        !(outcome is Failed) ==> r is Ok,
        outcome matches FileRemoval::Failed(m) ==> r == Err::<(), AuthError>(AuthError::FileError(m)),
{
    match outcome {
        FileRemoval::Removed => Ok(()),
        FileRemoval::NotFound => Ok(()),
        FileRemoval::Failed(m) => Err(AuthError::FileError(m)),
    }
}

/// Reads the outcome of writing the file (creating its directory, writing the
/// key, restricting its permissions): a failure is a file error with its message.
pub fn interpret_file_write(failure: Option<String>) -> (r: Result<(), AuthError>)
    ensures
        failure is None ==> r is Ok,
        failure matches Some(m) ==> r == Err::<(), AuthError>(AuthError::FileError(m)),
{
    match failure {
        None => Ok(()),
        Some(m) => Err(AuthError::FileError(m)),
    }
}

} // verus!
