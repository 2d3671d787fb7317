//! Listing projects, one page or all of them.
use vstd::prelude::*;

use crate::domain::repositories::paging::PageCollector;

verus! {

/// How to list: one page after the given cursor, or every page from the start.
pub enum ListProjectsPlan<T> {
    OnePage(Option<String>),
    AllPages(PageCollector<T>),
}

/// The name filter that is sent: an empty one counts as none.
pub open spec fn effective_name_filter(name: Option<String>) -> Option<String> {
    match name {
        Some(n) => if n@.len() > 0 {
            Some(n)
        } else {
            None
        },
        None => None,
    }
}

/// Lists projects; with `all`, every page is fetched and gathered.
pub struct ListProjects;

impl ListProjects {
    pub fn new() -> Self {
        ListProjects
    }

    /// The name filter to send: an empty name filters nothing.
    pub fn name_filter(&self, name_contains: Option<String>) -> (r: Option<String>)
        ensures
            r == effective_name_filter(name_contains),
    {
        match name_contains {
            Some(n) => if n.as_str().is_empty() {
                None
            } else {
                Some(n)
            },
            None => None,
        }
    }

    /// Without `all`, one page after `after`; with it, a walk through every page
    /// that starts at the first one (the given cursor is not used).
    pub fn start<T>(&self, all: bool, after: Option<String>) -> (p: ListProjectsPlan<T>)
        ensures
            !all ==> p == ListProjectsPlan::<T>::OnePage(after),
            all ==> (p matches ListProjectsPlan::AllPages(c) && c.items@.len() == 0),
    {
        if all {
            ListProjectsPlan::AllPages(PageCollector::new())
        } else {
            ListProjectsPlan::OnePage(after)
        }
    }
}

} // verus!
