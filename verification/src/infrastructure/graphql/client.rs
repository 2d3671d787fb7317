//! Validating an API key against the API: the request it sends and how its
//! answer is read.
use vstd::prelude::*;

use crate::domain::entities::workspace::Workspace;
use crate::domain::errors::{AuthError, DomainError};
use crate::infrastructure::graphql::queries::project_queries::{
    error_type_is, GraphqlError, GraphqlResponse,
};
use crate::text::str_eq;

verus! {

/// The API's GraphQL endpoint.
pub const LINEAR_API_URL: &'static str = "https://api.linear.app/graphql";

/// The query that asks who the key belongs to.
pub const VIEWER_QUERY: &'static str = "query ValidateApiKey { viewer { id name organization { name urlKey } } }";

/// The HTTP status with which the API refuses a key.
pub const HTTP_UNAUTHORIZED: u16 = 401;

/// The organization of the key's owner.
#[derive(Debug)]
pub struct OrganizationPayload {
    pub name: String,
    pub url_key: String,
}

/// The key's owner.
#[derive(Debug)]
pub struct ViewerPayload {
    pub id: String,
    pub name: String,
    pub organization: OrganizationPayload,
}

/// The data of the viewer query.
#[derive(Debug)]
pub struct ViewerData {
    pub viewer: ViewerPayload,
}

/// The verdict on a key that the HTTP status alone gives: 401 means the key is
/// invalid; any other status leaves the body to decide.
pub fn status_verdict(status: u16) -> (r: Option<AuthError>)
    ensures
        status == HTTP_UNAUTHORIZED ==> r == Some(AuthError::InvalidKey),
        status != HTTP_UNAUTHORIZED ==> r is None,
{
    if status == HTTP_UNAUTHORIZED {
        Some(AuthError::InvalidKey)
    } else {
        None
    }
}

/// `r` is the verdict that the viewer query's answer gives on the key: its first
/// error decides (an authentication error means an invalid key, any other
/// fails the validation with its message); without errors, missing data fails
/// the validation, and otherwise the workspace is built from the viewer's id and
/// organization, a refusal of which fails the validation with the refusal's
/// message.
pub open spec fn viewer_verdict(body: GraphqlResponse<ViewerData>, r: Result<Workspace, AuthError>) -> bool {
    let first_error: Option<GraphqlError> = match body.errors {
        Some(es) => if es@.len() > 0 {
            Some(es@[0])
        } else {
            None
        },
        None => None,
    };
    if let Some(f) = first_error {
        if error_type_is(f, "UNAUTHENTICATED"@) {
            r == Err::<Workspace, AuthError>(AuthError::InvalidKey)
        } else {
            r == Err::<Workspace, AuthError>(AuthError::ValidationFailed(f.message))
        }
    } else {
        match body.data {
            None => r matches Err(AuthError::ValidationFailed(m)) && m@
                == "empty response from Linear API"@,
            Some(d) => {
                let v = d.viewer;
                if v.id@.len() == 0 {
                    r matches Err(AuthError::ValidationFailed(m)) && m@
                        == "invalid input: workspace id cannot be empty"@
                } else if v.organization.name@.len() == 0 {
                    r matches Err(AuthError::ValidationFailed(m)) && m@
                        == "invalid input: workspace name cannot be empty"@
                } else {
                    r matches Ok(w) && w.spec_id() == v.id@ && w.spec_name()
                        == v.organization.name@ && w.spec_url_key() == v.organization.url_key@
                }
            },
        }
    }
}

/// Reads the viewer query's answer as a verdict on the key.
pub fn viewer_workspace(body: GraphqlResponse<ViewerData>) -> (r: Result<Workspace, AuthError>)
    ensures
        viewer_verdict(body, r),
{
    let ghost b = body;
    if let Some(errors) = &body.errors {
        if errors.len() > 0 {
            let first = &errors[0];
            let unauthenticated = match &first.extensions {
                Some(x) => match &x.error_type {
                    Some(t) => str_eq(t.as_str(), "UNAUTHENTICATED"),
                    None => false,
                },
                None => false,
            };
            if unauthenticated {
                return Err(AuthError::InvalidKey);
            }
            return Err(AuthError::ValidationFailed(first.message.clone()));
        }
    }
    let viewer = match body.data {
        Some(d) => d.viewer,
        None => {
            return Err(
                AuthError::ValidationFailed(String::from_str("empty response from Linear API")),
            );
        },
    };
    match Workspace::new(
        viewer.id.as_str(),
        viewer.organization.name.as_str(),
        viewer.organization.url_key.as_str(),
    ) {
        Ok(w) => Ok(w),
        Err(e) => {
            proof {
                reveal_strlit("invalid input: ");
                reveal_strlit("workspace id cannot be empty");
                reveal_strlit("workspace name cannot be empty");
                reveal_strlit("invalid input: workspace id cannot be empty");
                reveal_strlit("invalid input: workspace name cannot be empty");
                assert("invalid input: "@ + "workspace id cannot be empty"@
                    =~= "invalid input: workspace id cannot be empty"@);
                assert("invalid input: "@ + "workspace name cannot be empty"@
                    =~= "invalid input: workspace name cannot be empty"@);
            }
            Err(AuthError::ValidationFailed(e.to_string()))
        },
    }
}

} // verus!
