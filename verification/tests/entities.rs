use linear_cli::application::errors::ApplicationError;
use linear_cli::domain::entities::auth_session::{AuthSession, CredentialSource};
use linear_cli::domain::entities::issue::{Issue, SubIssueRef};
use linear_cli::domain::entities::login_result::LoginResult;
use linear_cli::domain::entities::team::Team;
use linear_cli::domain::entities::workspace::Workspace;
use linear_cli::domain::errors::{AuthError, DomainError};
use linear_cli::domain::value_objects::api_key::ApiKey;
use linear_cli::domain::value_objects::issue_id::IssueId;
use linear_cli::domain::value_objects::priority::Priority;
use linear_cli::domain::value_objects::team_id::TeamId;
use linear_cli::domain::value_objects::workflow_state_ref::WorkflowStateRef;

// ---- errors ----

#[test]
fn not_authenticated_variant_displays_hint() {
    let err = AuthError::NotAuthenticated;
    assert!(err.to_string().contains("linear auth login"));
}

#[test]
fn invalid_key_variant_is_displayable() {
    let err = AuthError::InvalidKey;
    assert!(!err.to_string().is_empty());
}

#[test]
fn validation_failed_includes_message() {
    let err = AuthError::ValidationFailed("bad response".into());
    assert!(err.to_string().contains("bad response"));
}

#[test]
fn network_error_includes_message() {
    let err = AuthError::NetworkError("timeout".into());
    assert!(err.to_string().contains("timeout"));
}

#[test]
fn keychain_unavailable_includes_message() {
    let err = AuthError::KeychainUnavailable("no keyring".into());
    assert!(err.to_string().contains("no keyring"));
}

#[test]
fn file_error_includes_message() {
    let err = AuthError::FileError("permission denied".into());
    assert!(err.to_string().contains("permission denied"));
}

#[test]
fn not_found_displays_identifier() {
    let err = DomainError::NotFound("issue-123".to_string());
    assert!(err.to_string().contains("issue-123"));
}

#[test]
fn invalid_input_displays_reason() {
    let err = DomainError::InvalidInput("title cannot be empty".to_string());
    assert!(err.to_string().contains("title cannot be empty"));
}

#[test]
fn not_implemented_is_displayable() {
    let err = DomainError::NotImplemented;
    assert!(!err.to_string().is_empty());
}

#[test]
fn error_messages_are_exact() {
    assert_eq!(AuthError::InvalidKey.to_string(), "invalid or expired API key");
    assert_eq!(
        AuthError::KeychainUnavailable("x".into()).to_string(),
        "system keychain is unavailable: x; re-run with --store-file to use file storage"
    );
    assert_eq!(DomainError::NotFound("a".into()).to_string(), "not found: a");
    assert_eq!(DomainError::InvalidInput("b".into()).to_string(), "invalid input: b");
    assert_eq!(DomainError::NotImplemented.to_string(), "not implemented");
    assert_eq!(DomainError::invalid("c"), DomainError::InvalidInput("c".into()));
}

#[test]
fn domain_variant_wraps_domain_error() {
    let domain_err = DomainError::NotFound("team-1".to_string());
    let app_err = ApplicationError::Domain(domain_err);
    assert!(app_err.to_string().contains("team-1"));
}

#[test]
fn application_error_conversions() {
    let e: ApplicationError = DomainError::NotImplemented.into();
    assert_eq!(e, ApplicationError::Domain(DomainError::NotImplemented));
    let a: ApplicationError = AuthError::InvalidKey.into();
    assert_eq!(a, ApplicationError::Auth(AuthError::InvalidKey));
    assert_eq!(a.to_string(), "invalid or expired API key");
    assert_eq!(ApplicationError::Unexpected("boom".into()).to_string(), "unexpected error: boom");
}

// ---- AuthSession ----

#[test]
fn new_creates_auth_session_with_correct_fields() {
    let key = ApiKey::new("my-key").ok().unwrap();
    let session = AuthSession::new(key.clone(), None, CredentialSource::Keychain);
    assert!(session.api_key() == &key);
    assert!(session.workspace().is_none());
    assert!(matches!(session.source(), CredentialSource::Keychain));
}

#[test]
fn credential_source_env_var_variant() {
    let key = ApiKey::new("env-key").ok().unwrap();
    let session = AuthSession::new(key, None, CredentialSource::EnvVar);
    assert!(matches!(session.source(), CredentialSource::EnvVar));
}

#[test]
fn credential_source_file_variant() {
    let key = ApiKey::new("file-key").ok().unwrap();
    let path = "/home/user/.config/linear-cli/credentials".to_string();
    let session = AuthSession::new(key, None, CredentialSource::File(path.clone()));
    match session.source() {
        CredentialSource::File(p) => assert_eq!(p, &path),
        _ => panic!("expected File variant"),
    }
}

#[test]
fn auth_session_keeps_workspace() {
    let key = ApiKey::new("k").ok().unwrap();
    let ws = Workspace::new("org", "Acme", "acme").unwrap();
    let session = AuthSession::new(key, Some(ws.clone()), CredentialSource::EnvVar);
    assert_eq!(session.workspace(), Some(&ws));
}

// ---- LoginResult ----

#[test]
fn login_result_keeps_fields() {
    let ws = Workspace::new("org", "Acme", "acme").unwrap();
    let r = LoginResult::new("user-1", "Ada", ws.clone());
    assert_eq!(r.user_id(), "user-1");
    assert_eq!(r.user_name(), "Ada");
    assert_eq!(r.workspace(), &ws);
}

// ---- Team ----

fn make_team_id() -> TeamId {
    TeamId::new("team-abc".to_string()).unwrap()
}

#[test]
fn rejects_empty_key() {
    let result = Team::new(make_team_id(), "Engineering".to_string(), "".to_string());
    assert!(matches!(result, Err(DomainError::InvalidInput(_))));
}

#[test]
fn rejects_invalid_key_format() {
    let result = Team::new(make_team_id(), "Engineering".to_string(), "toolong".to_string());
    assert!(matches!(result, Err(DomainError::InvalidInput(_))));
}

#[test]
fn accepts_valid_team() {
    let team = Team::new(make_team_id(), "Engineering".to_string(), "ENG".to_string()).unwrap();
    assert_eq!(team.key(), "ENG");
    assert_eq!(team.name(), "Engineering");
    assert_eq!(team.id().as_str(), "team-abc");
}

#[test]
fn team_key_edges() {
    assert!(Team::new(make_team_id(), "E".into(), "ABCDE".into()).is_ok());
    assert!(Team::new(make_team_id(), "E".into(), "ABCDEF".into()).is_err());
    assert!(Team::new(make_team_id(), "E".into(), "Eng".into()).is_err());
    assert!(Team::new(make_team_id(), "E".into(), "E1".into()).is_err());
}

// ---- Workspace ----

#[test]
fn new_rejects_empty_id() {
    let err = Workspace::new("", "Acme Corp", "acme").unwrap_err();
    assert!(err.to_string().contains("workspace id cannot be empty"));
}

#[test]
fn new_rejects_empty_name() {
    let err = Workspace::new("org-123", "", "acme").unwrap_err();
    assert!(err.to_string().contains("workspace name cannot be empty"));
}

#[test]
fn new_accepts_empty_url_key() {
    let ws = Workspace::new("org-123", "Acme Corp", "").unwrap();
    assert_eq!(ws.url_key(), "");
}

#[test]
fn new_creates_workspace_with_correct_fields() {
    let ws = Workspace::new("org-123", "Acme Corp", "acme").unwrap();
    assert_eq!(ws.id(), "org-123");
    assert_eq!(ws.name(), "Acme Corp");
    assert_eq!(ws.url_key(), "acme");
}

#[test]
fn clone_produces_equal_workspace() {
    let ws = Workspace::new("org-123", "Acme Corp", "acme").unwrap();
    assert_eq!(ws, ws.clone());
}

// ---- Issue ----

fn make_state() -> WorkflowStateRef {
    WorkflowStateRef {
        id: "state-1".to_string(),
        name: "Backlog".to_string(),
        state_type: "backlog".to_string(),
    }
}

fn make_issue(title: &str) -> Result<Issue, DomainError> {
    Issue::new(
        IssueId::new("issue-1".to_string()).unwrap(),
        "ENG-1".to_string(),
        title.to_string(),
        None,
        make_state(),
        Priority::NoPriority,
        TeamId::new("team-1".to_string()).unwrap(),
        None,
        None,
        vec![],
        None,
        None,
        None,
        None,
        vec![],
        "2026-01-01T00:00:00Z".to_string(),
        "2026-01-01T00:00:00Z".to_string(),
    )
}

#[test]
fn rejects_empty_title() {
    let result = make_issue("");
    assert!(matches!(result, Err(DomainError::InvalidInput(_))));
}

#[test]
fn accepts_valid_issue() {
    let issue = make_issue("Implement login").unwrap();
    assert_eq!(issue.title(), "Implement login");
}

#[test]
fn issue_getters_return_fields() {
    let issue = make_issue("T").unwrap();
    assert_eq!(issue.id().as_str(), "issue-1");
    assert_eq!(issue.state(), &make_state());
    assert_eq!(issue.priority(), Priority::NoPriority);
    assert_eq!(issue.team_id().as_str(), "team-1");
    let sub = SubIssueRef {
        id: IssueId::new("s".into()).unwrap(),
        title: "t".into(),
        identifier: "ENG-2".into(),
    };
    assert_eq!(sub.identifier, "ENG-2");
}

#[test]
fn empty_title_message() {
    assert_eq!(
        make_issue("").unwrap_err(),
        DomainError::InvalidInput("issue title cannot be empty".to_string())
    );
}
