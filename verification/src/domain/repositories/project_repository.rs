//! Pagination data of project listings.
use vstd::prelude::*;

verus! {

/// Whether more results follow, and the cursor to ask for them with.
#[derive(Debug, PartialEq, Eq)]
pub struct PageInfo {
    pub has_next_page: bool,
    pub end_cursor: Option<String>,
}

} // verus!
