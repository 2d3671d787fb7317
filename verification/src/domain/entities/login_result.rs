//! Who signed in, and into which workspace.
use vstd::prelude::*;

use crate::domain::entities::workspace::Workspace;

verus! {

/// The outcome of a successful sign-in.
#[derive(Debug)]
pub struct LoginResult {
    user_id: String,
    user_name: String,
    workspace: Workspace,
}

impl LoginResult {
    /// The signed-in user's identifier.
    pub closed spec fn spec_user_id(&self) -> Seq<char> {
        self.user_id@
    }

    /// The signed-in user's name.
    pub closed spec fn spec_user_name(&self) -> Seq<char> {
        self.user_name@
    }

    /// The workspace signed into.
    pub closed spec fn spec_workspace(&self) -> Workspace {
        self.workspace
    }

    /// Records a sign-in.
    pub fn new(user_id: &str, user_name: &str, workspace: Workspace) -> (r: Self)
        ensures
            r.spec_user_id() == user_id@,
            r.spec_user_name() == user_name@,
            r.spec_workspace() == workspace,
    {
        LoginResult {
            user_id: String::from_str(user_id),
            user_name: String::from_str(user_name),
            workspace,
        }
    }

    /// The signed-in user's identifier.
    pub fn user_id(&self) -> (r: &str)
        ensures
            r@ == self.spec_user_id(),
    {
        self.user_id.as_str()
    }

    /// The signed-in user's name.
    pub fn user_name(&self) -> (r: &str)
        ensures
            r@ == self.spec_user_name(),
    {
        self.user_name.as_str()
    }

    /// The workspace signed into.
    pub fn workspace(&self) -> (r: &Workspace)
        ensures
            *r == self.spec_workspace(),
    {
        &self.workspace
    }
}

} // verus!
