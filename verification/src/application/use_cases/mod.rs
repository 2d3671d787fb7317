//! One module per user action.
pub mod archive_project;
pub mod auth_status;
pub mod create_issue;
pub mod create_project;
pub mod delete_issue;
pub mod get_issue;
pub mod list_issues;
pub mod list_projects;
pub mod list_teams;
pub mod login;
pub mod logout;
pub mod resolve_auth;
pub mod update_issue;
pub mod update_project;
