use linear_cli::application::errors::ApplicationError;
use linear_cli::application::use_cases::archive_project::{ArchiveAction, ArchiveOutcome, ArchiveProject};
use linear_cli::application::use_cases::auth_status::AuthStatusUseCase;
use linear_cli::application::use_cases::create_project::{CreateProject, CreateProjectArgs};
use linear_cli::application::use_cases::delete_issue::{DeleteAction, DeleteIssue, DeleteOutcome};
use linear_cli::application::use_cases::get_issue::GetIssue;
use linear_cli::application::use_cases::list_issues::ListIssues;
use linear_cli::application::use_cases::list_projects::{ListProjects, ListProjectsPlan};
use linear_cli::application::use_cases::list_teams::ListTeams;
use linear_cli::application::use_cases::login::{LoginAction, LoginUseCase};
use linear_cli::application::use_cases::logout::{LogoutAction, LogoutUseCase};
use linear_cli::application::use_cases::resolve_auth::{resolve_auth, ResolveAuthAction};
use linear_cli::application::use_cases::update_project::{UpdateProject, UpdateProjectArgs};
use linear_cli::domain::entities::auth_session::{AuthSession, CredentialSource};
use linear_cli::domain::entities::issue::ListIssuesResult;
use linear_cli::domain::entities::team::Team;
use linear_cli::domain::entities::workspace::Workspace;
use linear_cli::domain::errors::{AuthError, DomainError};
use linear_cli::domain::repositories::credential_store::StorageKind;
use linear_cli::domain::repositories::paging::PageStep;
use linear_cli::domain::value_objects::api_key::ApiKey;
use linear_cli::domain::value_objects::issue_id::IssueId;
use linear_cli::domain::value_objects::project_id::ProjectId;
use linear_cli::domain::value_objects::project_state::ProjectState;
use linear_cli::domain::value_objects::team_id::TeamId;

/// A credential store of a test: its kind, the key it holds, and what it was asked.
struct FakeStore {
    kind: StorageKind,
    held: Option<String>,
    fail_retrieve: bool,
    removals: usize,
    stored: Option<String>,
}

impl FakeStore {
    fn new(kind: StorageKind, held: Option<&str>) -> FakeStore {
        FakeStore { kind, held: held.map(|s| s.to_string()), fail_retrieve: false, removals: 0, stored: None }
    }

    fn retrieve(&self) -> Result<Option<ApiKey>, AuthError> {
        if self.fail_retrieve {
            return Err(AuthError::KeychainUnavailable("locked".into()));
        }
        Ok(self.held.as_ref().map(|k| ApiKey::new(k).ok().unwrap()))
    }

    fn remove(&mut self) -> Result<(), AuthError> {
        self.removals += 1;
        self.held = None;
        Ok(())
    }
}

fn workspace() -> Workspace {
    Workspace::new("org-1", "Acme", "acme").unwrap()
}

/// Drives credential resolution against the stores; `validate` answers for a key.
fn run_resolve(
    env_key: Option<&str>,
    stores: &mut Vec<FakeStore>,
    validate: &dyn Fn(&str) -> Result<Workspace, AuthError>,
    validations: &mut Vec<String>,
) -> Result<AuthSession, AuthError> {
    let mut action = resolve_auth(env_key.map(|k| ApiKey::new(k).ok().unwrap()), stores.len());
    loop {
        action = match action {
            ResolveAuthAction::Finish(r) => return r,
            ResolveAuthAction::ValidateEnv(w) => {
                validations.push(w.api_key.as_str().to_string());
                let v = validate(w.api_key.as_str());
                w.on_validated(v)
            }
            ResolveAuthAction::Retrieve(w) => {
                let held = stores[w.store].retrieve();
                w.on_retrieved(held)
            }
            ResolveAuthAction::ValidateStored(w) => {
                validations.push(w.api_key.as_str().to_string());
                let v = validate(w.api_key.as_str());
                let kind = stores[w.store].kind.clone();
                w.on_validated(v, kind)
            }
            ResolveAuthAction::Remove(w) => {
                let r = stores[w.store].remove();
                w.on_removed(r)
            }
        };
    }
}

#[test]
fn env_var_checked_first() {
    let mut stores = vec![FakeStore::new(StorageKind::Keychain, Some("stored"))];
    let mut validations = Vec::new();
    let session = run_resolve(Some("env-key"), &mut stores, &|_| Ok(workspace()), &mut validations)
        .ok()
        .unwrap();
    assert!(matches!(session.source(), CredentialSource::EnvVar));
    assert_eq!(session.api_key().as_str(), "env-key");
    assert_eq!(validations, vec!["env-key".to_string()]);
}

#[test]
fn not_authenticated_when_all_sources_empty() {
    let mut stores = vec![
        FakeStore::new(StorageKind::Keychain, None),
        FakeStore::new(StorageKind::File("/f".into()), None),
    ];
    let mut validations = Vec::new();
    let r = run_resolve(None, &mut stores, &|_| Ok(workspace()), &mut validations);
    assert!(matches!(r, Err(AuthError::NotAuthenticated)));
    assert!(validations.is_empty());
    let mut none: Vec<FakeStore> = Vec::new();
    let r = run_resolve(None, &mut none, &|_| Ok(workspace()), &mut validations);
    assert!(matches!(r, Err(AuthError::NotAuthenticated)));
}

#[test]
fn revoked_key_calls_remove_then_returns_invalid_key() {
    let mut stores = vec![FakeStore::new(StorageKind::Keychain, Some("revoked"))];
    let mut validations = Vec::new();
    let r = run_resolve(None, &mut stores, &|_| Err(AuthError::InvalidKey), &mut validations);
    assert!(matches!(r, Err(AuthError::InvalidKey)));
    assert_eq!(stores[0].removals, 1);
}

#[test]
fn keychain_source_returns_keychain_session() {
    let mut stores = vec![FakeStore::new(StorageKind::Keychain, Some("kc"))];
    let mut validations = Vec::new();
    let session = run_resolve(None, &mut stores, &|_| Ok(workspace()), &mut validations).ok().unwrap();
    assert!(matches!(session.source(), CredentialSource::Keychain));
    assert_eq!(session.workspace(), Some(&workspace()));
}

#[test]
fn file_source_carries_path_and_skips_empty_stores() {
    let mut stores = vec![
        FakeStore::new(StorageKind::Keychain, None),
        FakeStore::new(StorageKind::File("/home/u/creds".into()), Some("fk")),
    ];
    let mut validations = Vec::new();
    let session = run_resolve(None, &mut stores, &|_| Ok(workspace()), &mut validations).ok().unwrap();
    assert_eq!(session.source(), &CredentialSource::File("/home/u/creds".into()));
    assert_eq!(session.api_key().as_str(), "fk");
}

#[test]
fn network_error_is_passed_on_without_removal() {
    let mut stores = vec![FakeStore::new(StorageKind::Keychain, Some("k"))];
    let mut validations = Vec::new();
    let r = run_resolve(
        None,
        &mut stores,
        &|_| Err(AuthError::NetworkError("down".into())),
        &mut validations,
    );
    assert!(matches!(r, Err(AuthError::NetworkError(_))));
    assert_eq!(stores[0].removals, 0);
}

#[test]
fn store_error_stops_resolution() {
    let mut failing = FakeStore::new(StorageKind::Keychain, Some("k"));
    failing.fail_retrieve = true;
    let mut stores = vec![failing, FakeStore::new(StorageKind::File("/f".into()), Some("f"))];
    let mut validations = Vec::new();
    let r = run_resolve(None, &mut stores, &|_| Ok(workspace()), &mut validations);
    assert!(matches!(r, Err(AuthError::KeychainUnavailable(_))));
    assert!(validations.is_empty());
}

#[test]
fn auth_status_scenarios() {
    let uc = AuthStatusUseCase::new();
    assert!(matches!(uc.start(None, 0), ResolveAuthAction::Finish(Err(AuthError::NotAuthenticated))));
    match uc.start(None, 2) {
        ResolveAuthAction::Retrieve(w) => {
            assert_eq!(w.store, 0);
            assert_eq!(w.count, 2);
        }
        _ => panic!("expected the first store to be asked"),
    }
    match uc.start(Some(ApiKey::new("e").ok().unwrap()), 2) {
        ResolveAuthAction::ValidateEnv(w) => {
            match w.on_validated(Err(AuthError::InvalidKey)) {
                ResolveAuthAction::Finish(Err(AuthError::InvalidKey)) => {}
                _ => panic!("expected an invalid key"),
            }
        }
        _ => panic!("expected validation of the environment key"),
    }
}

// ---- login ----

fn run_login(
    key: &str,
    overwrite: bool,
    store: &mut FakeStore,
    validate: &dyn Fn(&str) -> Result<Workspace, AuthError>,
) -> Result<Workspace, AuthError> {
    let uc = LoginUseCase::new();
    let mut action = uc.start(ApiKey::new(key).ok().unwrap(), overwrite);
    loop {
        action = match action {
            LoginAction::Finish(r) => return r,
            LoginAction::CheckExisting(w) => {
                let held = store.retrieve();
                w.on_retrieved(held)
            }
            LoginAction::Validate(w) => {
                let v = validate(w.api_key.as_str());
                w.on_validated(v)
            }
            LoginAction::Store(w) => {
                store.stored = Some(w.api_key.as_str().to_string());
                w.on_stored(Ok(()))
            }
        };
    }
}

#[test]
fn valid_key_validates_stores_and_returns_workspace() {
    let mut store = FakeStore::new(StorageKind::Keychain, None);
    let ws = run_login("good", false, &mut store, &|_| Ok(workspace())).unwrap();
    assert_eq!(ws, workspace());
    assert_eq!(store.stored, Some("good".to_string()));
}

#[test]
fn invalid_key_returns_invalid_key_error() {
    let mut store = FakeStore::new(StorageKind::Keychain, None);
    let r = run_login("bad", false, &mut store, &|_| Err(AuthError::InvalidKey));
    assert_eq!(r, Err(AuthError::InvalidKey));
    assert_eq!(store.stored, None);
}

#[test]
fn network_error_returns_network_error() {
    let mut store = FakeStore::new(StorageKind::Keychain, None);
    let r = run_login("k", false, &mut store, &|_| Err(AuthError::NetworkError("timeout".into())));
    assert_eq!(r, Err(AuthError::NetworkError("timeout".into())));
    assert_eq!(store.stored, None);
}

#[test]
fn credential_exists_without_overwrite_returns_not_authenticated() {
    let mut store = FakeStore::new(StorageKind::Keychain, Some("old"));
    let r = run_login("new", false, &mut store, &|_| Ok(workspace()));
    assert_eq!(r, Err(AuthError::NotAuthenticated));
    assert_eq!(store.stored, None);
}

#[test]
fn credential_exists_with_overwrite_validates_and_stores() {
    let mut store = FakeStore::new(StorageKind::Keychain, Some("old"));
    let r = run_login("new", true, &mut store, &|_| Ok(workspace()));
    assert_eq!(r, Ok(workspace()));
    assert_eq!(store.stored, Some("new".to_string()));
}

// ---- logout ----

fn run_logout(stores: &mut Vec<FakeStore>, dry_run: bool) -> Result<Vec<StorageKind>, AuthError> {
    let uc = LogoutUseCase::new();
    let mut action = uc.start(stores.len(), dry_run);
    loop {
        action = match action {
            LogoutAction::Finish(r) => return r,
            LogoutAction::Retrieve(w) => {
                let held = stores[w.store].retrieve();
                let kind = stores[w.store].kind.clone();
                w.on_retrieved(held, kind)
            }
            LogoutAction::Remove(w) => {
                let r = stores[w.store].remove();
                w.on_removed(r)
            }
        };
    }
}

#[test]
fn credential_present_removes_from_all_stores() {
    let mut stores = vec![
        FakeStore::new(StorageKind::Keychain, Some("a")),
        FakeStore::new(StorageKind::File("/f".into()), Some("b")),
    ];
    let found = run_logout(&mut stores, false).unwrap();
    assert_eq!(found, vec![StorageKind::Keychain, StorageKind::File("/f".into())]);
    assert_eq!(stores[0].removals, 1);
    assert_eq!(stores[1].removals, 1);
}

#[test]
fn no_credential_returns_empty() {
    let mut stores = vec![FakeStore::new(StorageKind::Keychain, None)];
    let found = run_logout(&mut stores, false).unwrap();
    assert!(found.is_empty());
    assert_eq!(stores[0].removals, 0);
}

#[test]
fn dry_run_returns_what_would_be_removed_without_calling_remove() {
    let mut stores = vec![
        FakeStore::new(StorageKind::Keychain, Some("a")),
        FakeStore::new(StorageKind::File("/f".into()), None),
    ];
    let found = run_logout(&mut stores, true).unwrap();
    assert_eq!(found, vec![StorageKind::Keychain]);
    assert_eq!(stores[0].removals, 0);
}

#[test]
fn logout_store_error_is_passed_on() {
    let mut failing = FakeStore::new(StorageKind::Keychain, Some("a"));
    failing.fail_retrieve = true;
    let mut stores = vec![failing];
    assert!(matches!(run_logout(&mut stores, false), Err(AuthError::KeychainUnavailable(_))));
}

// ---- archive / delete ----

#[test]
fn archive_project_dry_run_returns_ok_without_api_call() {
    let uc = ArchiveProject::new();
    let id = ProjectId::parse("q3-platform").unwrap();
    assert!(matches!(uc.start(id, true), ArchiveAction::Finish(Ok(ArchiveOutcome::Archived))));
}

#[test]
fn success_returns_ok() {
    let uc = ArchiveProject::new();
    let id = ProjectId::parse("q3-platform").unwrap();
    match uc.start(id, false) {
        ArchiveAction::Archive(p) => assert_eq!(p.to_string(), "q3-platform"),
        _ => panic!("expected an archive request"),
    }
    assert_eq!(uc.on_archived(Ok(())), Ok(ArchiveOutcome::Archived));
}

#[test]
fn archive_project_not_found_returns_error() {
    let uc = ArchiveProject::new();
    assert_eq!(
        uc.on_archived(Err(DomainError::NotFound("q3-platform".into()))),
        Err(DomainError::NotFound("q3-platform".into()))
    );
}

#[test]
fn already_archived_signal_returns_already_archived_outcome() {
    let uc = ArchiveProject::new();
    assert_eq!(
        uc.on_archived(Err(DomainError::NotFound("Project is ARCHIVED".into()))),
        Ok(ArchiveOutcome::AlreadyArchived)
    );
    assert_eq!(
        uc.on_archived(Err(DomainError::InvalidInput("archived".into()))),
        Err(DomainError::InvalidInput("archived".into()))
    );
}

#[test]
fn success_returns_deleted() {
    let uc = DeleteIssue::new();
    match uc.start(IssueId::new("i-1".into()).unwrap(), false) {
        DeleteAction::Delete(i) => assert_eq!(i.as_str(), "i-1"),
        _ => panic!("expected a delete request"),
    }
    assert_eq!(uc.on_deleted(Ok(())), Ok(DeleteOutcome::Deleted));
}

#[test]
fn delete_issue_not_found_returns_error() {
    let uc = DeleteIssue::new();
    assert_eq!(
        uc.on_deleted(Err(DomainError::NotFound("i-1".into()))),
        Err(DomainError::NotFound("i-1".into()))
    );
}

#[test]
fn delete_issue_dry_run_returns_ok_without_api_call() {
    let uc = DeleteIssue::new();
    assert!(matches!(
        uc.start(IssueId::new("i-1".into()).unwrap(), true),
        DeleteAction::Finish(Ok(DeleteOutcome::Deleted))
    ));
}

// ---- listing ----

#[test]
fn returns_empty_result_when_repo_returns_empty() {
    let uc = ListIssues::new();
    let r = uc
        .on_listed(Ok(ListIssuesResult { items: vec![], next_cursor: None, has_next_page: false }))
        .unwrap();
    assert!(r.items.is_empty());
    assert!(!r.has_next_page);
}

#[test]
fn list_issues_propagates_domain_error_as_application_error() {
    let uc = ListIssues::new();
    let r = uc.on_listed(Err(DomainError::NotFound("x".into())));
    assert!(matches!(r, Err(ApplicationError::Domain(DomainError::NotFound(_)))));
}

#[test]
fn returns_empty_vec_when_repo_returns_empty() {
    let uc = ListTeams::new();
    assert!(uc.on_listed(Ok(vec![])).unwrap().is_empty());
}

#[test]
fn list_teams_propagates_domain_error_as_application_error() {
    let uc = ListTeams::new();
    let r: Result<Vec<Team>, ApplicationError> = uc.on_listed(Err(DomainError::NotImplemented));
    assert!(matches!(r, Err(ApplicationError::Domain(DomainError::NotImplemented))));
}

#[test]
fn single_page_returns_immediately() {
    let uc = ListProjects::new();
    match uc.start::<u32>(false, Some("c".into())) {
        ListProjectsPlan::OnePage(after) => assert_eq!(after, Some("c".to_string())),
        _ => panic!("expected a single page"),
    }
}

#[test]
fn all_flag_collects_all_pages() {
    let uc = ListProjects::new();
    let collector = match uc.start::<u32>(true, Some("ignored".into())) {
        ListProjectsPlan::AllPages(c) => c,
        _ => panic!("expected a walk through all pages"),
    };
    let (collector, cursor) = match collector.on_page(vec![1, 2], true, Some("p2".into())) {
        PageStep::Fetch { collector, cursor } => (collector, cursor),
        _ => panic!("expected another page"),
    };
    assert_eq!(cursor, "p2");
    match collector.on_page(vec![3], false, None) {
        PageStep::Done { items, has_next_page, end_cursor } => {
            assert_eq!(items, vec![1, 2, 3]);
            assert!(!has_next_page);
            assert_eq!(end_cursor, None);
        }
        _ => panic!("expected the walk to stop"),
    }
}

#[test]
fn page_without_cursor_stops_the_walk() {
    let uc = ListProjects::new();
    let collector = match uc.start::<u32>(true, None) {
        ListProjectsPlan::AllPages(c) => c,
        _ => panic!("expected a walk"),
    };
    match collector.on_page(vec![7], true, None) {
        PageStep::Done { items, has_next_page, .. } => {
            assert_eq!(items, vec![7]);
            assert!(has_next_page);
        }
        _ => panic!("expected the walk to stop"),
    }
}

#[test]
fn empty_result_returns_ok() {
    let uc = ListProjects::new();
    let collector = match uc.start::<u32>(true, None) {
        ListProjectsPlan::AllPages(c) => c,
        _ => panic!("expected a walk"),
    };
    match collector.on_page(vec![], false, None) {
        PageStep::Done { items, .. } => assert!(items.is_empty()),
        _ => panic!("expected the walk to stop"),
    }
}

#[test]
fn name_contains_filters_to_matching_projects() {
    let uc = ListProjects::new();
    assert_eq!(uc.name_filter(Some("plat".into())), Some("plat".to_string()));
}

#[test]
fn empty_name_is_treated_as_no_filter() {
    let uc = ListProjects::new();
    assert_eq!(uc.name_filter(Some(String::new())), None);
    assert_eq!(uc.name_filter(None), None);
}

// ---- create / update project ----

fn create_args(name: &str, teams: Vec<&str>) -> CreateProjectArgs {
    CreateProjectArgs {
        name: name.to_string(),
        team_ids: teams.into_iter().map(|t| t.to_string()).collect(),
        description: None,
        lead_id: None,
        start_date: None,
        target_date: None,
    }
}

#[test]
fn create_project_dry_run_returns_none_without_api_call() {
    let uc = CreateProject::new();
    assert!(uc.prepare(create_args("P", vec!["t"]), true).unwrap().is_none());
}

#[test]
fn missing_name_fails_before_api_call() {
    let uc = CreateProject::new();
    assert_eq!(
        uc.prepare(create_args("", vec!["t"]), false).unwrap_err(),
        DomainError::InvalidInput("project name cannot be empty".into())
    );
}

#[test]
fn missing_team_fails_before_api_call() {
    let uc = CreateProject::new();
    assert_eq!(
        uc.prepare(create_args("P", vec![]), false).unwrap_err(),
        DomainError::InvalidInput("at least one team id is required".into())
    );
}

#[test]
fn valid_create_calls_repo() {
    let uc = CreateProject::new();
    let mut args = create_args("P", vec!["t1", "t2"]);
    args.lead_id = Some("u1".into());
    args.start_date = Some("2026-01-01".into());
    let input = uc.prepare(args, false).unwrap().unwrap();
    assert_eq!(input.name, "P");
    assert_eq!(input.team_ids.len(), 2);
    assert_eq!(input.team_ids[1].as_str(), "t2");
    assert_eq!(input.lead_id.unwrap().as_str(), "u1");
    assert_eq!(input.start_date, Some("2026-01-01".to_string()));
}

#[test]
fn create_project_refuses_empty_team_id() {
    let uc = CreateProject::new();
    assert_eq!(
        uc.prepare(create_args("P", vec!["t", ""]), false).unwrap_err(),
        DomainError::InvalidInput("team id cannot be empty".into())
    );
}

fn update_args() -> UpdateProjectArgs {
    UpdateProjectArgs {
        name: None,
        description: None,
        state: None,
        lead_id: None,
        start_date: None,
        target_date: None,
    }
}

#[test]
fn no_fields_returns_error() {
    let uc = UpdateProject::new();
    assert_eq!(
        uc.prepare(update_args(), false).unwrap_err(),
        DomainError::InvalidInput("at least one update field must be provided".into())
    );
}

#[test]
fn update_project_dry_run_returns_none_without_api_call() {
    let uc = UpdateProject::new();
    let mut args = update_args();
    args.name = Some("N".into());
    assert!(uc.prepare(args, true).unwrap().is_none());
}

#[test]
fn valid_update_calls_repo() {
    let uc = UpdateProject::new();
    let mut args = update_args();
    args.state = Some(ProjectState::Paused);
    let input = uc.prepare(args, false).unwrap().unwrap();
    assert_eq!(input.state, Some(ProjectState::Paused));
    assert!(input.has_changes());
}

// ---- get issue ----

#[test]
fn get_issue_refuses_empty_id() {
    let uc = GetIssue::new();
    assert_eq!(
        uc.start(String::new()).unwrap_err(),
        ApplicationError::Domain(DomainError::InvalidInput(
            "invalid input: issue id cannot be empty".into()
        ))
    );
    assert_eq!(uc.start("ENG-1".into()).unwrap().as_str(), "ENG-1");
    let r = uc.on_fetched(Err(DomainError::NotFound("ENG-1".into())));
    assert!(matches!(r, Err(ApplicationError::Domain(DomainError::NotFound(_)))));
}

#[test]
fn team_id_for_filters() {
    assert_eq!(TeamId::new("t".into()).unwrap().as_str(), "t");
}

// ---- create / update issue ----

use linear_cli::application::use_cases::create_issue::{validate_date, CreateIssue, CreateIssueAction};
use linear_cli::application::use_cases::update_issue::{UpdateIssue, UpdateIssueAction};
use linear_cli::domain::entities::issue::{CreateIssueInput, Issue, UpdateIssueInput, WorkflowStateInfo};
use linear_cli::domain::value_objects::priority::Priority;
use linear_cli::domain::value_objects::workflow_state_ref::WorkflowStateRef;

fn create_input(title: &str) -> CreateIssueInput {
    CreateIssueInput {
        title: title.to_string(),
        team_id: TeamId::new("team-1".into()).unwrap(),
        project_id: ProjectId::parse("q3-platform").unwrap(),
        description: None,
        priority: None,
        assignee_id: None,
        label_ids: vec![],
        due_date: None,
        estimate: None,
        parent_id: None,
    }
}

fn sample_issue(id: &str) -> Issue {
    Issue::new(
        IssueId::new(id.to_string()).unwrap(),
        "ENG-9".to_string(),
        "Parent".to_string(),
        None,
        WorkflowStateRef { id: "s".into(), name: "Todo".into(), state_type: "unstarted".into() },
        Priority::NoPriority,
        TeamId::new("team-7".into()).unwrap(),
        None,
        None,
        vec![],
        None,
        None,
        None,
        None,
        vec![],
        "c".into(),
        "u".into(),
    )
    .unwrap()
}

fn invalid_message(a: CreateIssueAction) -> String {
    match a {
        CreateIssueAction::Finish(Err(ApplicationError::Domain(DomainError::InvalidInput(m)))) => m,
        _ => panic!("expected a validation error"),
    }
}

#[test]
fn create_issue_validates_in_order() {
    let uc = CreateIssue::new();
    assert_eq!(invalid_message(uc.start(create_input(""), false)), "--title is required");
    let mut bad_date = create_input("T");
    bad_date.due_date = Some("2026/01/01".into());
    assert_eq!(
        invalid_message(uc.start(bad_date, false)),
        "--due-date '2026/01/01' must be in YYYY-MM-DD format"
    );
    let mut negative = create_input("T");
    negative.estimate = Some((-1.5f64).to_bits());
    assert_eq!(invalid_message(uc.start(negative, false)), "--estimate must be non-negative");
    let mut zero = create_input("T");
    zero.estimate = Some((-0.0f64).to_bits());
    assert!(matches!(uc.start(zero, false), CreateIssueAction::Create(_)));
    assert_eq!(invalid_message(uc.start(create_input("T"), true)), "dry-run: issue not created");
}

#[test]
fn create_issue_resolves_display_id_parent() {
    let uc = CreateIssue::new();
    let mut input = create_input("Child");
    input.parent_id = Some(IssueId::new("ENG-9".into()).unwrap());
    let pending = match uc.start(input, false) {
        CreateIssueAction::ResolveParent(p) => p,
        _ => panic!("expected the parent to be resolved first"),
    };
    assert_eq!(pending.parent.as_str(), "ENG-9");
    match uc.on_parent(pending, Ok(sample_issue("uuid-parent"))) {
        CreateIssueAction::Create(i) => {
            assert_eq!(i.parent_id.unwrap().as_str(), "uuid-parent");
            assert_eq!(i.title, "Child");
        }
        _ => panic!("expected the creation"),
    }
    let mut by_uuid = create_input("Child");
    by_uuid.parent_id = Some(IssueId::new("uuid-2".into()).unwrap());
    assert!(matches!(uc.start(by_uuid, false), CreateIssueAction::Create(_)));
}

#[test]
fn due_dates_must_be_iso() {
    assert!(validate_date("2026-12-31").is_ok());
    assert!(validate_date("2026-1-31").is_err());
    assert!(validate_date("20261231xx").is_err());
}

fn update_input() -> UpdateIssueInput {
    UpdateIssueInput {
        title: None,
        description: None,
        state_id: None,
        priority: None,
        assignee_id: None,
        due_date: None,
        estimate: None,
        parent_id: None,
        no_parent: false,
    }
}

fn update_error(a: UpdateIssueAction) -> String {
    match a {
        UpdateIssueAction::Finish(Err(ApplicationError::Domain(DomainError::InvalidInput(m)))) => m,
        _ => panic!("expected a validation error"),
    }
}

#[test]
fn update_issue_validates_in_order() {
    let uc = UpdateIssue::new();
    let mut both = update_input();
    both.parent_id = Some(IssueId::new("p".into()).unwrap());
    both.no_parent = true;
    assert_eq!(update_error(uc.start("i".into(), both, false)), "--parent and --no-parent are mutually exclusive");
    assert_eq!(update_error(uc.start("i".into(), update_input(), false)), "at least one update flag required");
    let mut titled = update_input();
    titled.title = Some("T".into());
    assert_eq!(
        update_error(uc.start(String::new(), titled, false)),
        "invalid input: issue id cannot be empty"
    );
    let mut detach = update_input();
    detach.no_parent = true;
    match uc.start("i".into(), detach, false) {
        UpdateIssueAction::Update(id, input) => {
            assert_eq!(id.as_str(), "i");
            assert!(input.no_parent);
        }
        _ => panic!("expected the update"),
    }
}

#[test]
fn update_issue_resolves_state_by_name() {
    let uc = UpdateIssue::new();
    let mut input = update_input();
    input.state_id = Some("in progress".into());
    let w = match uc.start("ENG-1".into(), input, false) {
        UpdateIssueAction::FetchIssue(w) => w,
        _ => panic!("expected the issue to be fetched"),
    };
    let w = match w.on_issue(Ok(sample_issue("i-1"))) {
        UpdateIssueAction::FetchStates(w) => w,
        _ => panic!("expected the states to be fetched"),
    };
    assert_eq!(w.team_id.as_str(), "team-7");
    let states = vec![
        WorkflowStateInfo { id: "s1".into(), name: "Todo".into(), state_type: "unstarted".into() },
        WorkflowStateInfo { id: "s2".into(), name: "In Progress".into(), state_type: "started".into() },
    ];
    match w.on_states(Ok(states)) {
        UpdateIssueAction::Update(id, input) => {
            assert_eq!(id.as_str(), "ENG-1");
            assert_eq!(input.state_id, Some("s2".to_string()));
        }
        _ => panic!("expected the update"),
    }
}

#[test]
fn update_issue_unknown_state_lists_names() {
    let uc = UpdateIssue::new();
    let mut input = update_input();
    input.state_id = Some("Shipped".into());
    let w = match uc.start("ENG-1".into(), input, true) {
        UpdateIssueAction::FetchIssue(w) => w,
        _ => panic!("expected the issue to be fetched"),
    };
    let w = match w.on_issue(Ok(sample_issue("i-1"))) {
        UpdateIssueAction::FetchStates(w) => w,
        _ => panic!("expected the states to be fetched"),
    };
    let states = vec![
        WorkflowStateInfo { id: "s1".into(), name: "Todo".into(), state_type: "unstarted".into() },
        WorkflowStateInfo { id: "s2".into(), name: "Done".into(), state_type: "completed".into() },
    ];
    assert_eq!(
        update_error(w.on_states(Ok(states))),
        "--state \"Shipped\" is not valid; valid states: Todo, Done"
    );
}

// ---- auth status ----

#[test]
fn authenticated_returns_auth_session() {
    let mut stores = vec![FakeStore::new(StorageKind::Keychain, Some("k"))];
    let mut validations = Vec::new();
    let session = run_resolve(None, &mut stores, &|_| Ok(workspace()), &mut validations).ok().unwrap();
    assert_eq!(session.api_key().as_str(), "k");
    assert_eq!(session.workspace().unwrap().name(), "Acme");
}

#[test]
fn no_credential_returns_not_authenticated() {
    let uc = AuthStatusUseCase::new();
    assert!(matches!(uc.start(None, 0), ResolveAuthAction::Finish(Err(AuthError::NotAuthenticated))));
    let mut stores = vec![FakeStore::new(StorageKind::Keychain, None)];
    let mut validations = Vec::new();
    let r = run_resolve(None, &mut stores, &|_| Ok(workspace()), &mut validations);
    assert!(matches!(r, Err(AuthError::NotAuthenticated)));
}

#[test]
fn revoked_key_returns_invalid_key() {
    let mut stores = vec![FakeStore::new(StorageKind::File("/f".into()), Some("old"))];
    let mut validations = Vec::new();
    let r = run_resolve(None, &mut stores, &|_| Err(AuthError::InvalidKey), &mut validations);
    assert!(matches!(r, Err(AuthError::InvalidKey)));
    assert_eq!(stores[0].removals, 1);
    assert!(stores[0].held.is_none());
}

// ---- the validator trait ----

use linear_cli::domain::repositories::linear_api_client::LinearApiClient;

struct RefusingValidator;

impl LinearApiClient for RefusingValidator {
    fn validate_api_key(&self, _key: &ApiKey) -> Result<Workspace, AuthError> {
        Err(AuthError::InvalidKey)
    }
}

#[test]
fn mock_linear_api_client_compiles() {
    let mock = RefusingValidator;
    let key = ApiKey::new("test-key").ok().unwrap();
    let result = mock.validate_api_key(&key);
    assert!(result.is_err());
}
