//! A Linear workspace (organization).
use vstd::prelude::*;

use crate::domain::errors::DomainError;

verus! {

/// A workspace; its id and name are never empty.
#[derive(Debug, PartialEq, Eq)]
pub struct Workspace {
    id: String,
    name: String,
    url_key: String,
}

impl Workspace {
    /// The workspace's identifier.
    pub closed spec fn spec_id(&self) -> Seq<char> {
        self.id@
    }

    /// The workspace's display name.
    pub closed spec fn spec_name(&self) -> Seq<char> {
        self.name@
    }

    /// The workspace's URL key.
    pub closed spec fn spec_url_key(&self) -> Seq<char> {
        self.url_key@
    }

    /// Builds a workspace; the id and the name must not be empty.
    pub fn new(id: &str, name: &str, url_key: &str) -> (r: Result<Self, DomainError>)
        ensures
            id@.len() == 0 ==> (r matches Err(DomainError::InvalidInput(m)) && m@
                == "workspace id cannot be empty"@),
            id@.len() > 0 && name@.len() == 0 ==> (r matches Err(DomainError::InvalidInput(m))
                && m@ == "workspace name cannot be empty"@),
            id@.len() > 0 && name@.len() > 0 ==> (r matches Ok(w) && w.spec_id() == id@
                && w.spec_name() == name@ && w.spec_url_key() == url_key@),
    {
        if id.is_empty() {
            return Err(DomainError::InvalidInput(String::from_str("workspace id cannot be empty")));
        }
        if name.is_empty() {
            return Err(
                DomainError::InvalidInput(String::from_str("workspace name cannot be empty")),
            );
        }
        Ok(
            Workspace {
                id: String::from_str(id),
                name: String::from_str(name),
                url_key: String::from_str(url_key),
            },
        )
    }

    /// The workspace's identifier.
    pub fn id(&self) -> (r: &str)
        ensures
            r@ == self.spec_id(),
    {
        self.id.as_str()
    }

    /// The workspace's display name.
    pub fn name(&self) -> (r: &str)
        ensures
            r@ == self.spec_name(),
    {
        self.name.as_str()
    }

    /// The workspace's URL key.
    pub fn url_key(&self) -> (r: &str)
        ensures
            r@ == self.spec_url_key(),
    {
        self.url_key.as_str()
    }
}

impl Clone for Workspace {
    fn clone(&self) -> (c: Self)
        ensures
            c == *self,
    {
        Workspace { id: self.id.clone(), name: self.name.clone(), url_key: self.url_key.clone() }
    }
}

} // verus!
