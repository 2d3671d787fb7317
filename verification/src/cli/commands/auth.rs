//! `linear auth`: its arguments, the choice of credential store, and what its
//! subcommands decide and report.
use vstd::prelude::*;

use crate::domain::entities::auth_session::CredentialSource;
use crate::domain::errors::AuthError;
use crate::domain::repositories::credential_store::StorageKind;
use crate::domain::value_objects::api_key::ApiKey;
use crate::text::{lowercase, str_eq, to_lowercase, trim, trimmed};

verus! {

/// The arguments of `linear auth`.
#[derive(Debug)]
pub struct AuthCommand {
    pub subcommand: AuthSubcommand,
}

/// The subcommands of `linear auth`. `store_file` is `Some("")` when
/// `--store-file` is given without a path.
#[derive(Debug)]
pub enum AuthSubcommand {
    Login { api_key: Option<String>, store_file: Option<String> },
    Status,
    Logout { dry_run: bool },
}

/// Where a login keeps the key: the keychain, or the credentials file at a path.
#[derive(Debug, PartialEq, Eq)]
pub enum StorePlan {
    Keychain,
    File(String),
}

/// The store a login uses, how the output names it, and the file's path for a
/// file: the keychain unless `--store-file` is given; a file flag without a path
/// means the default credentials file.
pub fn make_store(store_file: Option<&str>, default_path: &str) -> (r: (StorePlan, &'static str, Option<String>))
    ensures
        store_file is None ==> r.0 == StorePlan::Keychain && r.1@ == "keychain"@ && r.2 is None,
        store_file matches Some(p) ==> (r.0 matches StorePlan::File(x) && r.1@ == "file"@ && r.2
            == Some(x) && (if p@.len() == 0 {
            x@ == default_path@
        } else {
            x@ == p@
        })),
{
    match store_file {
        None => (StorePlan::Keychain, "keychain", None),
        Some(p) => {
            let path = if p.is_empty() {
                String::from_str(default_path)
            } else {
                String::from_str(p)
            };
            let shown = path.clone();
            (StorePlan::File(path), "file", Some(shown))
        },
    }
}

/// The key given with `--api-key`; an empty one fails the validation with the
/// refusal's message.
pub fn key_from_flag(raw: &str) -> (r: Result<ApiKey, AuthError>)
    ensures
        raw@.len() > 0 ==> (r matches Ok(k) && k@ == raw@),
        raw@.len() == 0 ==> (r matches Err(AuthError::ValidationFailed(m)) && m@
            == "invalid input: api key cannot be empty"@),
{
    match ApiKey::new(raw) {
        Ok(k) => Ok(k),
        Err(e) => {
            proof {
                reveal_strlit("invalid input: ");
                reveal_strlit("api key cannot be empty");
                reveal_strlit("invalid input: api key cannot be empty");
                assert("invalid input: "@ + "api key cannot be empty"@
                    =~= "invalid input: api key cannot be empty"@);
            }
            Err(AuthError::ValidationFailed(e.to_string()))
        },
    }
}

/// Whether the key may be asked for at the terminal: not when JSON output is
/// forced, and not without a terminal.
pub fn prompt_allowed(force_json: bool, is_tty: bool) -> (r: Result<(), AuthError>)
    ensures
        force_json || !is_tty ==> (r matches Err(AuthError::ValidationFailed(m)) && m@
            == "--api-key is required in non-interactive mode"@),
        !force_json && is_tty ==> r is Ok,
{
    if force_json || !is_tty {
        Err(AuthError::ValidationFailed(String::from_str("--api-key is required in non-interactive mode")))
    } else {
        Ok(())
    }
}

/// The key typed at the prompt: the line without surrounding white space; an
/// empty line is an invalid key.
pub fn key_from_prompt(line: &str) -> (r: Result<ApiKey, AuthError>)
    ensures
        trimmed(line@).len() == 0 ==> r == Err::<ApiKey, AuthError>(AuthError::InvalidKey),
        trimmed(line@).len() > 0 ==> (r matches Ok(k) && k@ == trimmed(line@)),
{
    let t = trim(line);
    if t.as_str().is_empty() {
        return Err(AuthError::InvalidKey);
    }
    match ApiKey::new(t.as_str()) {
        Ok(k) => Ok(k),
        Err(e) => Err(AuthError::ValidationFailed(e.to_string())),
    }
}

/// Whether the answer to the overwrite question is yes: "y" or "yes", ignoring
/// case and surrounding white space.
pub fn overwrite_confirmed(answer: &str) -> (r: bool)
    ensures
        r == (lowercase(trimmed(answer@)) == "y"@ || lowercase(trimmed(answer@)) == "yes"@),
{
    let t = trim(answer);
    let l = to_lowercase(t.as_str());
    str_eq(l.as_str(), "y") || str_eq(l.as_str(), "yes")
}

/// How the status output names where the key came from.
pub fn source_label(source: &CredentialSource) -> (r: &'static str)
    ensures
        *source == CredentialSource::EnvVar ==> r@ == "env_var"@,
        *source == CredentialSource::Keychain ==> r@ == "keychain"@,
        source is File ==> r@ == "file"@,
{
    match source {
        CredentialSource::EnvVar => "env_var",
        CredentialSource::Keychain => "keychain",
        CredentialSource::File(_) => "file",
    }
}

/// The credentials file's path, when the key came from one.
pub fn source_path(source: &CredentialSource) -> (r: Option<String>)
    ensures
        source matches CredentialSource::File(p) ==> r == Some(*p),
        !(source is File) ==> r is None,
{
    match source {
        CredentialSource::File(p) => Some(p.clone()),
        _ => None,
    }
}

/// The machine-readable code of a failed status check.
pub open spec fn error_code_of(e: AuthError) -> Seq<char> {
    match e {
        AuthError::InvalidKey => "invalid_key"@,
        AuthError::NetworkError(_) => "network_error"@,
        AuthError::ValidationFailed(_) => "network_error"@,
        _ => "not_authenticated"@,
    }
}

/// The machine-readable code of a failed status check.
pub fn status_error_code(e: &AuthError) -> (r: &'static str)
    ensures
        r@ == error_code_of(*e),
{
    match e {
        AuthError::NotAuthenticated => "not_authenticated",
        AuthError::InvalidKey => "invalid_key",
        AuthError::NetworkError(_) => "network_error",
        AuthError::ValidationFailed(_) => "network_error",
        _ => "not_authenticated",
    }
}

/// The human-readable status line of an authenticated session.
pub fn status_line(workspace_name: Option<&str>, source: &str) -> (r: String)
    ensures
        r@ == "\u{2713} Authenticated (workspace: "@ + (match workspace_name {
            Some(n) => n@,
            None => "unknown"@,
        }) + ", source: "@ + source@ + ")"@,
{
    let name = match workspace_name {
        Some(n) => n,
        None => "unknown",
    };
    String::from_str("\u{2713} Authenticated (workspace: ").concat(name).concat(", source: ").concat(
        source,
    ).concat(")")
}

/// The human-readable line after a login.
pub fn login_line(user_name: &str, workspace_name: &str) -> (r: String)
    ensures
        r@ == "\u{2713} Authenticated as "@ + user_name@ + " (workspace: "@ + workspace_name@
            + ")"@,
{
    String::from_str("\u{2713} Authenticated as ").concat(user_name).concat(" (workspace: ").concat(
        workspace_name,
    ).concat(")")
}

/// One removed (or removable) credential in the logout output.
#[derive(Debug, PartialEq, Eq)]
pub struct StorageEntry {
    pub storage: String,
    pub path: Option<String>,
}

/// The output entry of a store kind.
pub open spec fn entry_of(k: StorageKind, e: StorageEntry) -> bool {
    match k {
        StorageKind::Keychain => e.storage@ == "keychain"@ && e.path is None,
        StorageKind::File(p) => e.storage@ == "file"@ && e.path == Some(p),
    }
}

/// The output entries of the store kinds, in order.
pub fn to_storage_entries(kinds: &Vec<StorageKind>) -> (r: Vec<StorageEntry>)
    ensures
        r@.len() == kinds@.len(),
        forall|i: int| 0 <= i < r@.len() ==> entry_of(kinds@[i], #[trigger] r@[i]),
{
    let mut out: Vec<StorageEntry> = Vec::new();
    let mut i: usize = 0;
    while i < kinds.len()
        invariant
            i <= kinds@.len(),
            out@.len() == i,
            forall|j: int| 0 <= j < i ==> entry_of(kinds@[j], #[trigger] out@[j]),
        decreases kinds@.len() - i,
    {
        let e = match &kinds[i] {
            StorageKind::Keychain => StorageEntry { storage: String::from_str("keychain"), path: None },
            StorageKind::File(p) => StorageEntry {
                storage: String::from_str("file"),
                path: Some(p.clone()),
            },
        };
        out.push(e);
        i = i + 1;
    }
    out
}

/// The human-readable lines after a logout (or its dry run), given how many
/// stores held a credential.
pub fn logout_lines(dry_run: bool, found: usize) -> (r: Vec<&'static str>)
    ensures
        found == 0 ==> r@.len() == 1 && r@[0]@ == "No credentials found. Nothing to remove."@,
        found > 0 && dry_run ==> r@.len() == 2 && r@[0]@
            == "Would remove: keychain entry (service: linear-cli, account: default)"@ && r@[1]@
            == "No changes made (--dry-run)."@,
        found > 0 && !dry_run ==> r@.len() == 1 && r@[0]@
            == "\u{2713} Signed out. Credentials removed from keychain."@,
{
    if found == 0 {
        vec!["No credentials found. Nothing to remove."]
    } else if dry_run {
        vec!["Would remove: keychain entry (service: linear-cli, account: default)", "No changes made (--dry-run)."]
    } else {
        vec!["\u{2713} Signed out. Credentials removed from keychain."]
    }
}

} // verus!
