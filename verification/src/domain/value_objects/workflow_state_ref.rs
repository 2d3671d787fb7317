//! A reference to a team's concrete workflow state.
use vstd::prelude::*;

verus! {

/// A workflow state as an issue carries it: its id, display name and category.
#[derive(Debug, PartialEq, Eq)]
pub struct WorkflowStateRef {
    pub id: String,
    pub name: String,
    pub state_type: String,
}

impl Clone for WorkflowStateRef {
    fn clone(&self) -> (c: Self)
        ensures
            c == *self,
    {
        WorkflowStateRef {
            id: self.id.clone(),
            name: self.name.clone(),
            state_type: self.state_type.clone(),
        }
    }
}

} // verus!
