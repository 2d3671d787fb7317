use linear_cli::dates::optional_date;
use linear_cli::domain::entities::issue::{
    CreateIssueInput, ListIssuesInput, UpdateIssueInput,
};
use linear_cli::domain::entities::project::{CreateProjectInput, UpdateProjectInput};
use linear_cli::domain::errors::{AuthError, DomainError};
use linear_cli::domain::repositories::credential_store::StorageKind;
use linear_cli::domain::repositories::paging::{PageCollector, PageStep};
use linear_cli::domain::repositories::team_repository::TeamRepository;
use linear_cli::domain::value_objects::issue_id::IssueId;
use linear_cli::domain::value_objects::label_id::LabelId;
use linear_cli::domain::value_objects::priority::Priority;
use linear_cli::domain::value_objects::project_id::ProjectId;
use linear_cli::domain::value_objects::project_state::ProjectState;
use linear_cli::domain::value_objects::team_id::TeamId;
use linear_cli::domain::value_objects::user_id::UserId;
use linear_cli::infrastructure::auth::file_store::{
    interpret_file_read, interpret_file_removal, interpret_file_write, key_from_file_text,
    FileCredentialStore, FileRead, FileRemoval,
};
use linear_cli::infrastructure::auth::keyring_store::{
    interpret_keychain_read, interpret_keychain_removal, interpret_keychain_write,
    KeyringCredentialStore, SecretRead, SecretRemoval,
};
use linear_cli::infrastructure::graphql::client::{
    status_verdict, viewer_workspace, OrganizationPayload, ViewerData, ViewerPayload,
};
use linear_cli::infrastructure::graphql::mutations::issue_mutations::payload_entity;
use linear_cli::infrastructure::graphql::mutations::project_mutations::archive_result;
use linear_cli::infrastructure::graphql::queries::issue_queries::{
    build_issue_filter, IssueDetailNode, IssueLabelConnection, IssueLabelNode, IssueNode,
    IssueParentNode, IssueTeamNode, SubIssueConnection, SubIssueNode, UserNode,
    WorkflowStateDetailNode, WorkflowStateNode,
};
use linear_cli::infrastructure::graphql::queries::project_queries::{
    find_status_id, first_slug_match, map_errors, status_type_for, take_data, FailureDecision,
    GraphqlError, GraphqlErrorExtension, GraphqlResponse, ProjectStatusNode, ProjectStatusType,
    RetryAttempt, RetryDecision,
};
use linear_cli::infrastructure::repositories::issue_repository::{
    all_pages_input, all_pages_result, create_input, is_display_id, issues_of_nodes,
    known_project_uuid, node_to_issue_detail, node_to_issue_light, on_issue_page,
    single_page_result, slug_to_resolve, update_input, with_project_uuid, workflow_state_infos,
    ALL_PAGES_PAGE_SIZE,
};
use linear_cli::infrastructure::repositories::project_repository::{
    check_project_fields, project_create_input, project_parts_of, project_state_from_str,
    project_update_input, status_to_look_up, ProjectNode,
};
use linear_cli::infrastructure::repositories::team_repository::LinearTeamRepository;

fn default_list_input() -> ListIssuesInput {
    ListIssuesInput {
        team_id: None,
        project_id: None,
        state_name: None,
        assignee_id: None,
        priority: None,
        label_ids: vec![],
        limit: 50,
        cursor: None,
        all_pages: false,
        title_contains: None,
    }
}

// ---- issue filter ----

#[test]
fn title_contains_is_threaded_to_filter() {
    let input = ListIssuesInput { title_contains: Some("login".to_string()), ..default_list_input() };
    let filter = build_issue_filter(&input).expect("expected a filter");
    let title = filter.title.expect("expected title field in filter");
    assert_eq!(title.contains_ignore_case, Some("login".to_string()));
}

#[test]
fn empty_title_is_treated_as_no_filter() {
    let with_empty = ListIssuesInput { title_contains: Some("".to_string()), ..default_list_input() };
    let with_none = ListIssuesInput { title_contains: None, ..default_list_input() };
    assert!(build_issue_filter(&with_empty).is_none());
    assert!(build_issue_filter(&with_none).is_none());
}

#[test]
fn title_and_state_filter_compose() {
    let input = ListIssuesInput {
        title_contains: Some("auth".to_string()),
        state_name: Some("in_progress".to_string()),
        ..default_list_input()
    };
    let filter = build_issue_filter(&input).expect("expected a filter");
    assert!(filter.title.is_some(), "title filter should be set");
    assert!(filter.state.is_some(), "state filter should be set");
}

#[test]
fn title_and_team_filter_compose() {
    let input = ListIssuesInput {
        title_contains: Some("deploy".to_string()),
        team_id: Some(TeamId::new("team-1".to_string()).unwrap()),
        ..default_list_input()
    };
    let filter = build_issue_filter(&input).expect("expected a filter");
    assert!(filter.title.is_some(), "title filter should be set");
    assert!(filter.team.is_some(), "team filter should be set");
}

#[test]
fn filter_carries_each_criterion() {
    let input = ListIssuesInput {
        priority: Some(Priority::High),
        assignee_id: Some(UserId::new("u".into()).unwrap()),
        label_ids: vec![LabelId::new("l".into()).unwrap()],
        project_id: Some(ProjectId::parse("9cfb482a-81e3-4154-b5b9-2c805e70a02d").unwrap()),
        ..default_list_input()
    };
    let f = build_issue_filter(&input).unwrap();
    assert_eq!(f.priority.unwrap().eq, Some(2));
    assert!(f.assignee.is_some());
    assert!(f.labels.is_some());
    assert!(f.project.is_some());
    assert!(f.team.is_none());
    assert!(f.id.is_none());
}

// ---- node conversion ----

fn state_node() -> WorkflowStateNode {
    WorkflowStateNode { id: "s1".into(), name: "Todo".into(), state_type: "unstarted".into() }
}

fn issue_node(priority: u8, team: &str, id: &str, title: &str) -> IssueNode {
    IssueNode {
        id: id.into(),
        identifier: "ENG-7".into(),
        title: title.into(),
        state: state_node(),
        priority,
        team: IssueTeamNode { id: team.into() },
        assignee: Some(UserNode { id: "".into(), name: "Ada".into() }),
        labels: IssueLabelConnection {
            nodes: vec![IssueLabelNode { id: "l1".into() }, IssueLabelNode { id: "".into() }],
        },
        created_at: "c".into(),
        updated_at: "u".into(),
    }
}

#[test]
fn light_node_converts_and_drops_empty_ids() {
    let issue = node_to_issue_light(issue_node(3, "t", "i", "Title")).unwrap();
    assert_eq!(issue.id().as_str(), "i");
    assert_eq!(issue.priority(), Priority::Medium);
    assert_eq!(issue.assignee_id, None);
    assert_eq!(issue.assignee_name, Some("Ada".to_string()));
    assert_eq!(issue.label_ids.len(), 1);
    assert_eq!(issue.label_ids[0].as_str(), "l1");
    assert_eq!(issue.state().name, "Todo");
}

#[test]
fn light_node_faults_in_order() {
    assert_eq!(
        node_to_issue_light(issue_node(9, "", "", "")).unwrap_err(),
        DomainError::InvalidInput("invalid priority value: 9".into())
    );
    assert_eq!(
        node_to_issue_light(issue_node(0, "", "", "")).unwrap_err(),
        DomainError::InvalidInput("team id cannot be empty".into())
    );
    assert_eq!(
        node_to_issue_light(issue_node(0, "t", "", "")).unwrap_err(),
        DomainError::InvalidInput("issue id cannot be empty".into())
    );
    assert_eq!(
        node_to_issue_light(issue_node(0, "t", "i", "")).unwrap_err(),
        DomainError::InvalidInput("issue title cannot be empty".into())
    );
}

#[test]
fn detail_node_keeps_parent_and_children() {
    let node = IssueDetailNode {
        id: "i".into(),
        identifier: "ENG-1".into(),
        title: "T".into(),
        description: Some("D".into()),
        state: state_node(),
        priority: 1,
        team: IssueTeamNode { id: "t".into() },
        assignee: Some(UserNode { id: "u1".into(), name: "Ada".into() }),
        labels: IssueLabelConnection { nodes: vec![] },
        due_date: Some("2026-01-02".into()),
        estimate: Some(0x4004_0000_0000_0000),
        parent: Some(IssueParentNode { id: "".into(), title: "Epic".into() }),
        children: SubIssueConnection {
            nodes: vec![
                SubIssueNode { id: "".into(), identifier: "X".into(), title: "x".into() },
                SubIssueNode { id: "c2".into(), identifier: "ENG-3".into(), title: "Child".into() },
            ],
        },
        created_at: "c".into(),
        updated_at: "u".into(),
    };
    let issue = node_to_issue_detail(node).unwrap();
    assert_eq!(issue.assignee_id.unwrap().as_str(), "u1");
    assert_eq!(issue.parent_id, None);
    assert_eq!(issue.parent_title, Some("Epic".to_string()));
    assert_eq!(issue.sub_issues.len(), 1);
    assert_eq!(issue.sub_issues[0].identifier, "ENG-3");
    assert_eq!(issue.estimate, Some(0x4004_0000_0000_0000));
    assert_eq!(issue.description, Some("D".to_string()));
}

#[test]
fn listing_stops_at_first_unsound_node() {
    let nodes = vec![issue_node(1, "t", "a", "A"), issue_node(7, "t", "b", "B"), issue_node(1, "", "c", "C")];
    assert_eq!(
        issues_of_nodes(nodes).unwrap_err(),
        DomainError::InvalidInput("invalid priority value: 7".into())
    );
    let ok = issues_of_nodes(vec![issue_node(1, "t", "a", "A"), issue_node(2, "t", "b", "B")]).unwrap();
    assert_eq!(ok.len(), 2);
    assert_eq!(ok[1].id().as_str(), "b");
}

#[test]
fn single_page_keeps_pagination() {
    let r = single_page_result(vec![issue_node(1, "t", "a", "A")], true, Some("c9".into())).unwrap();
    assert_eq!(r.items.len(), 1);
    assert!(r.has_next_page);
    assert_eq!(r.next_cursor, Some("c9".to_string()));
}

#[test]
fn walk_through_issue_pages() {
    let step = on_issue_page(PageCollector::new(), vec![issue_node(1, "t", "a", "A")], true, Some("p2".into()))
        .unwrap();
    let (collector, cursor) = match step {
        PageStep::Fetch { collector, cursor } => (collector, cursor),
        _ => panic!("expected another page"),
    };
    assert_eq!(cursor, "p2");
    let step = on_issue_page(collector, vec![issue_node(2, "t", "b", "B")], false, None).unwrap();
    let items = match step {
        PageStep::Done { items, .. } => items,
        _ => panic!("expected the walk to stop"),
    };
    let result = all_pages_result(items);
    assert_eq!(result.items.len(), 2);
    assert_eq!(result.items[0].id().as_str(), "a");
    assert_eq!(result.items[1].id().as_str(), "b");
    assert!(!result.has_next_page);
    assert_eq!(result.next_cursor, None);
}

#[test]
fn listing_inputs() {
    let input = ListIssuesInput {
        project_id: Some(ProjectId::parse("q3").unwrap()),
        limit: 5,
        ..default_list_input()
    };
    assert_eq!(slug_to_resolve(&input), Some("q3".to_string()));
    let input = with_project_uuid(input, "uuid-1".into());
    assert_eq!(input.project_id, Some(ProjectId::Uuid("uuid-1".into())));
    assert_eq!(slug_to_resolve(&input), None);
    let paged = all_pages_input(input);
    assert_eq!(paged.limit, ALL_PAGES_PAGE_SIZE);
    assert_eq!(ALL_PAGES_PAGE_SIZE, 250);
}

#[test]
fn display_ids() {
    assert!(is_display_id("ENG-123"));
    assert!(!is_display_id("AB-CD-1"));
    assert!(is_display_id("A-0"));
    assert!(!is_display_id("eng-123"));
    assert!(!is_display_id("ENG-"));
    assert!(!is_display_id("ENG123"));
    assert!(!is_display_id("-1"));
    assert!(!is_display_id("9cfb482a-81e3-4154-b5b9-2c805e70a02d"));
}

#[test]
fn workflow_states_in_order() {
    let infos = workflow_state_infos(vec![
        WorkflowStateDetailNode { id: "1".into(), name: "Todo".into(), state_type: "unstarted".into() },
        WorkflowStateDetailNode { id: "2".into(), name: "Done".into(), state_type: "completed".into() },
    ]);
    assert_eq!(infos.len(), 2);
    assert_eq!(infos[1].name, "Done");
}

#[test]
fn mutation_inputs() {
    let input = CreateIssueInput {
        title: "T".into(),
        team_id: TeamId::new("t".into()).unwrap(),
        project_id: ProjectId::parse("9cfb482a-81e3-4154-b5b9-2c805e70a02d").unwrap(),
        description: None,
        priority: Some(Priority::Low),
        assignee_id: None,
        label_ids: vec![],
        due_date: None,
        estimate: None,
        parent_id: Some(IssueId::new("p".into()).unwrap()),
    };
    assert_eq!(
        known_project_uuid(&input.project_id),
        Some("9cfb482a-81e3-4154-b5b9-2c805e70a02d".to_string())
    );
    assert_eq!(known_project_uuid(&ProjectId::parse("slug").unwrap()), None);
    let m = create_input(input, "uuid".into(), Some(3));
    assert_eq!(m.priority, Some(4));
    assert_eq!(m.label_ids, None);
    assert_eq!(m.project_id, Some("uuid".to_string()));
    assert_eq!(m.parent_id, Some("p".to_string()));
    assert_eq!(m.estimate, Some(3));
    assert_eq!(m.team_id, "t");

    let update = UpdateIssueInput {
        title: None,
        description: None,
        state_id: Some("s".into()),
        priority: None,
        assignee_id: None,
        due_date: None,
        estimate: None,
        parent_id: Some(IssueId::new("p".into()).unwrap()),
        no_parent: true,
    };
    let u = update_input(update, None);
    assert_eq!(u.parent_id, Some(None));
    assert_eq!(u.state_id, Some("s".to_string()));
}

// ---- GraphQL answers ----

fn gql_error(message: &str, error_type: Option<&str>) -> GraphqlError {
    GraphqlError {
        message: message.into(),
        extensions: Some(GraphqlErrorExtension { error_type: error_type.map(|t| t.to_string()) }),
    }
}

#[test]
fn graphql_errors_are_mapped_by_the_first() {
    assert_eq!(
        map_errors(vec![]),
        DomainError::InvalidInput("unknown GraphQL error".into())
    );
    assert_eq!(
        map_errors(vec![gql_error("slow down", Some("RATELIMITED"))]),
        DomainError::InvalidInput("rate limited by Linear API".into())
    );
    assert_eq!(
        map_errors(vec![gql_error("who", Some("UNAUTHENTICATED"))]),
        DomainError::InvalidInput("authentication error".into())
    );
    assert_eq!(
        map_errors(vec![gql_error("Entity NOT FOUND", None), gql_error("x", Some("RATELIMITED"))]),
        DomainError::NotFound("Entity NOT FOUND".into())
    );
    assert_eq!(
        map_errors(vec![gql_error("bad", None)]),
        DomainError::InvalidInput("bad".into())
    );
    assert!(gql_error("", Some("RATELIMITED")).is_rate_limited());
}

#[test]
fn data_is_taken_unless_errors() {
    let ok: GraphqlResponse<u8> = GraphqlResponse { data: Some(1), errors: None };
    assert_eq!(take_data(ok, "empty").unwrap(), 1);
    let empty: GraphqlResponse<u8> = GraphqlResponse { data: None, errors: None };
    assert_eq!(take_data(empty, "empty").unwrap_err(), DomainError::InvalidInput("empty".into()));
    let both: GraphqlResponse<u8> = GraphqlResponse { data: Some(1), errors: Some(vec![gql_error("bad", None)]) };
    assert_eq!(take_data(both, "empty").unwrap_err(), DomainError::InvalidInput("bad".into()));
}

#[test]
fn retries_are_bounded() {
    let a = RetryAttempt::first();
    assert_eq!(a.number(), 0);
    let b = match a.on_response(true) {
        RetryDecision::Wait { seconds, next } => {
            assert_eq!(seconds, 1);
            next
        }
        RetryDecision::Accept => panic!("expected a wait"),
    };
    let c = match b.on_failure(DomainError::NotImplemented) {
        FailureDecision::Wait { seconds, next } => {
            assert_eq!(seconds, 2);
            next
        }
        FailureDecision::Fail(_) => panic!("expected a wait"),
    };
    assert_eq!(c.number(), 2);
    assert!(matches!(c.on_response(true), RetryDecision::Accept));
    let d = RetryAttempt::first();
    assert!(matches!(d.on_response(false), RetryDecision::Accept));
    let mut attempt = RetryAttempt::first();
    let mut sends = 1;
    loop {
        match attempt.on_failure(DomainError::InvalidInput("net".into())) {
            FailureDecision::Wait { next, .. } => {
                attempt = next;
                sends += 1;
            }
            FailureDecision::Fail(e) => {
                assert_eq!(e, DomainError::InvalidInput("net".into()));
                break;
            }
        }
    }
    assert_eq!(sends, 3);
}

#[test]
fn slug_and_status_lookups() {
    assert_eq!(
        first_slug_match(vec![ProjectNodeId("a"), ProjectNodeId("b")], "s").unwrap(),
        "a"
    );
    assert_eq!(
        first_slug_match(vec![], "q3").unwrap_err(),
        DomainError::NotFound("q3".into())
    );
    assert_eq!(status_type_for("canceled").unwrap(), ProjectStatusType::Canceled);
    assert_eq!(
        status_type_for("weird").unwrap_err(),
        DomainError::InvalidInput("unknown project status type: 'weird'".into())
    );
    let statuses = vec![
        ProjectStatusNode { id: "x".into(), status_type: ProjectStatusType::Backlog },
        ProjectStatusNode { id: "y".into(), status_type: ProjectStatusType::Paused },
        ProjectStatusNode { id: "z".into(), status_type: ProjectStatusType::Paused },
    ];
    assert_eq!(find_status_id(statuses, ProjectStatusType::Paused, "paused").unwrap(), "y");
    assert_eq!(
        find_status_id(vec![], ProjectStatusType::Paused, "paused").unwrap_err(),
        DomainError::InvalidInput("no project status of type 'paused' found in workspace".into())
    );
}

#[allow(non_snake_case)]
fn ProjectNodeId(id: &str) -> linear_cli::infrastructure::graphql::queries::project_queries::SlugProjectNode {
    linear_cli::infrastructure::graphql::queries::project_queries::SlugProjectNode { id: id.into() }
}

#[test]
fn mutation_payloads() {
    assert_eq!(payload_entity(true, Some(5u8), "failed", "missing").unwrap(), 5);
    assert_eq!(
        payload_entity::<u8>(false, Some(5), "failed", "missing").unwrap_err(),
        DomainError::InvalidInput("failed".into())
    );
    assert_eq!(
        payload_entity::<u8>(true, None, "failed", "missing").unwrap_err(),
        DomainError::InvalidInput("missing".into())
    );
    assert_eq!(archive_result(true, None, "p1").unwrap(), "p1");
    assert_eq!(archive_result(true, Some("e".into()), "p1").unwrap(), "e");
    assert_eq!(
        archive_result(false, None, "p1").unwrap_err(),
        DomainError::NotFound("project is already archived".into())
    );
}

// ---- key validation ----

fn viewer(id: &str, org: &str) -> GraphqlResponse<ViewerData> {
    GraphqlResponse {
        data: Some(ViewerData {
            viewer: ViewerPayload {
                id: id.into(),
                name: "Ada".into(),
                organization: OrganizationPayload { name: org.into(), url_key: "acme".into() },
            },
        }),
        errors: None,
    }
}

#[test]
fn viewer_answers_give_verdicts() {
    assert_eq!(status_verdict(401), Some(AuthError::InvalidKey));
    assert_eq!(status_verdict(200), None);
    let ws = viewer_workspace(viewer("org-1", "Acme")).unwrap();
    assert_eq!(ws.id(), "org-1");
    assert_eq!(ws.name(), "Acme");
    assert_eq!(ws.url_key(), "acme");
    assert_eq!(
        viewer_workspace(viewer("", "Acme")).unwrap_err(),
        AuthError::ValidationFailed("invalid input: workspace id cannot be empty".into())
    );
    assert_eq!(
        viewer_workspace(viewer("o", "")).unwrap_err(),
        AuthError::ValidationFailed("invalid input: workspace name cannot be empty".into())
    );
    let mut unauth = viewer("o", "A");
    unauth.errors = Some(vec![gql_error("nope", Some("UNAUTHENTICATED"))]);
    assert_eq!(viewer_workspace(unauth).unwrap_err(), AuthError::InvalidKey);
    let mut other = viewer("o", "A");
    other.errors = Some(vec![gql_error("broken", Some("INTERNAL"))]);
    assert_eq!(viewer_workspace(other).unwrap_err(), AuthError::ValidationFailed("broken".into()));
    let empty: GraphqlResponse<ViewerData> = GraphqlResponse { data: None, errors: Some(vec![]) };
    assert_eq!(
        viewer_workspace(empty).unwrap_err(),
        AuthError::ValidationFailed("empty response from Linear API".into())
    );
}

// ---- credential stores ----

#[test]
fn file_store_paths_and_kind() {
    let store = FileCredentialStore::new(Some("/home/ada".into()));
    assert_eq!(store.path(), "/home/ada/.config/linear-cli/credentials");
    let fallback = FileCredentialStore::new(None);
    assert_eq!(fallback.path(), "./.config/linear-cli/credentials");
    let custom = FileCredentialStore::with_path("/tmp/creds".into());
    assert_eq!(custom.path(), "/tmp/creds");
    assert_eq!(custom.kind(), StorageKind::File("/tmp/creds".into()));
    assert_eq!(
        custom.store_warning(),
        "Warning: storing credentials in plain-text file: /tmp/creds"
    );
}

#[test]
fn file_store_missing_returns_none() {
    assert!(interpret_file_read(FileRead::NotFound).unwrap().is_none());
    assert!(interpret_file_read(FileRead::Text("  \n".into())).unwrap().is_none());
    let key = interpret_file_read(FileRead::Text("  key-1\n".into())).ok().unwrap().unwrap();
    assert_eq!(key.as_str(), "key-1");
    assert_eq!(
        interpret_file_read(FileRead::Failed("denied".into())).err().unwrap(),
        AuthError::FileError("denied".into())
    );
    assert_eq!(key_from_file_text("\tabc ").ok().unwrap().unwrap().as_str(), "abc");
}

#[test]
fn file_store_remove_outcomes() {
    assert!(interpret_file_removal(FileRemoval::Removed).is_ok());
    assert!(interpret_file_removal(FileRemoval::NotFound).is_ok());
    assert_eq!(
        interpret_file_removal(FileRemoval::Failed("busy".into())).unwrap_err(),
        AuthError::FileError("busy".into())
    );
    assert!(interpret_file_write(None).is_ok());
    assert_eq!(interpret_file_write(Some("ro".into())).unwrap_err(), AuthError::FileError("ro".into()));
}

#[test]
fn keychain_outcomes() {
    assert_eq!(KeyringCredentialStore::new().kind(), StorageKind::Keychain);
    assert_eq!(interpret_keychain_read(SecretRead::Found("s".into())).ok().unwrap().unwrap().as_str(), "s");
    assert!(interpret_keychain_read(SecretRead::NoEntry).ok().unwrap().is_none());
    assert_eq!(
        interpret_keychain_read(SecretRead::Found(String::new())).err().unwrap(),
        AuthError::KeychainUnavailable("invalid input: api key cannot be empty".into())
    );
    assert_eq!(
        interpret_keychain_read(SecretRead::Failed("locked".into())).err().unwrap(),
        AuthError::KeychainUnavailable("locked".into())
    );
    assert!(interpret_keychain_removal(SecretRemoval::NoEntry).is_ok());
    assert!(interpret_keychain_removal(SecretRemoval::Removed).is_ok());
    assert_eq!(
        interpret_keychain_removal(SecretRemoval::Failed("x".into())).unwrap_err(),
        AuthError::KeychainUnavailable("x".into())
    );
    assert_eq!(
        interpret_keychain_write(Some("y".into())).unwrap_err(),
        AuthError::KeychainUnavailable("y".into())
    );
}

// ---- projects ----

#[test]
fn project_states_read_loosely() {
    assert_eq!(project_state_from_str("Started"), ProjectState::Started);
    assert_eq!(project_state_from_str("CANCELED"), ProjectState::Cancelled);
    assert_eq!(project_state_from_str("backlog"), ProjectState::Planned);
    assert_eq!(project_state_from_str(""), ProjectState::Planned);
    for st in [
        ProjectState::Planned,
        ProjectState::Started,
        ProjectState::Paused,
        ProjectState::Completed,
        ProjectState::Cancelled,
    ] {
        assert_eq!(project_state_from_str(&st.to_string()), st);
    }
}

#[test]
fn project_nodes_are_read() {
    let parts = project_parts_of(ProjectNode {
        id: "p".into(),
        name: "P".into(),
        description: "".into(),
        slug_id: "p-1".into(),
        state: "paused".into(),
        lead_id: Some("".into()),
        team_ids: vec!["t1".into(), "".into()],
        start_date: Some("2026-01-05".into()),
        target_date: Some("not a date".into()),
        updated_at: "2026-01-01T00:00:00Z".into(),
    });
    assert_eq!(parts.description, None);
    assert_eq!(parts.state, ProjectState::Paused);
    assert_eq!(parts.lead_id, None);
    assert_eq!(parts.team_ids, vec!["t1".to_string()]);
    assert_eq!(parts.start_date, Some("2026-01-05".to_string()));
    assert_eq!(parts.target_date, None);
    assert_eq!(parts.slug_id, "p-1");
}

#[test]
fn rejects_empty_name() {
    let err = check_project_fields("", 1).unwrap_err();
    assert!(err.to_string().contains("name"));
}

#[test]
fn rejects_empty_teams() {
    let err = check_project_fields("Valid Name", 0).unwrap_err();
    assert!(err.to_string().contains("team"));
}

#[test]
fn project_field_checks() {
    assert_eq!(
        check_project_fields("", 1).unwrap_err(),
        DomainError::InvalidInput("project name cannot be empty".into())
    );
    assert_eq!(
        check_project_fields("P", 0).unwrap_err(),
        DomainError::InvalidInput("project must belong to at least one team".into())
    );
    assert!(check_project_fields("P", 2).is_ok());
}

#[test]
fn project_mutation_inputs() {
    let create = project_create_input(CreateProjectInput {
        name: "P".into(),
        team_ids: vec![TeamId::new("t".into()).unwrap()],
        description: Some("d".into()),
        lead_id: Some(UserId::new("u".into()).unwrap()),
        start_date: None,
        target_date: Some("2026-02-02".into()),
    });
    assert_eq!(create.team_ids, vec!["t".to_string()]);
    assert_eq!(create.lead_id, Some("u".to_string()));
    assert_eq!(create.status_id, None);
    let update = UpdateProjectInput {
        name: None,
        description: None,
        state: Some(ProjectState::Completed),
        lead_id: None,
        start_date: None,
        target_date: None,
    };
    assert_eq!(status_to_look_up(&update), Some("completed".to_string()));
    let u = project_update_input(update, Some("st-1".into()));
    assert_eq!(u.status_id, Some("st-1".to_string()));
}

#[test]
fn dates_read_through_chrono() {
    assert_eq!(optional_date(Some("2024-02-29".into())), Some("2024-02-29".to_string()));
    assert_eq!(optional_date(Some("2023-02-29".into())), None);
    assert_eq!(optional_date(None), None);
    assert_eq!(optional_date(Some("x".into())), None);
}

#[test]
fn teams_are_not_wired_yet() {
    let repo = LinearTeamRepository;
    assert!(repo.list().unwrap().is_empty());
    assert_eq!(
        repo.get(TeamId::new("t".into()).unwrap()).unwrap_err(),
        DomainError::NotImplemented
    );
}

#[test]
fn file_store_remove_missing_is_ok() {
    assert!(interpret_file_removal(FileRemoval::NotFound).is_ok());
}

#[test]
fn no_entry_maps_to_none() {
    match interpret_keychain_read(SecretRead::NoEntry) {
        Ok(None) => {}
        _ => panic!("expected no entry after remove"),
    }
}

#[test]
fn file_store_default_path_is_config_dir() {
    let home = dirs::home_dir();
    let store = FileCredentialStore::new(home.as_ref().map(|p| p.display().to_string()));
    if let Some(h) = home {
        let expected = h.join(".config/linear-cli/credentials");
        assert_eq!(store.path(), expected.display().to_string());
    }
}

#[test]
fn list_issues_use_case_passes_title_contains() {
    let input = ListIssuesInput { title_contains: Some("login".to_string()), ..default_list_input() };
    let vars = linear_cli::infrastructure::graphql::queries::issue_queries::issue_list_variables(
        &input,
        Some("after-1".to_string()),
    );
    assert_eq!(vars.first, 50);
    assert_eq!(vars.after, Some("after-1".to_string()));
    let title = vars.filter.unwrap().title.unwrap();
    assert_eq!(title.contains_ignore_case, Some("login".to_string()));
}
