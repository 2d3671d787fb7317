//! The coarse workflow categories of an issue.
use vstd::prelude::*;

verus! {

/// The five workflow categories.
#[derive(Debug, Clone, Copy, PartialEq, Eq, Structural)]
pub enum WorkflowState {
    Backlog,
    Todo,
    InProgress,
    Done,
    Cancelled,
}

impl WorkflowState {
    /// The name of the category, as `Display` writes it.
    pub open spec fn name(self) -> Seq<char> {
        match self {
            WorkflowState::Backlog => "Backlog"@,
            WorkflowState::Todo => "Todo"@,
            WorkflowState::InProgress => "InProgress"@,
            WorkflowState::Done => "Done"@,
            WorkflowState::Cancelled => "Cancelled"@,
        }
    }

    /// The name of the category, as `Display` writes it.
    pub fn to_string(&self) -> (s: String)
        ensures
            s@ == self.name(),
    {
        let n = match self {
            WorkflowState::Backlog => "Backlog",
            WorkflowState::Todo => "Todo",
            WorkflowState::InProgress => "InProgress",
            WorkflowState::Done => "Done",
            WorkflowState::Cancelled => "Cancelled",
        };
        String::from_str(n)
    }
}

} // verus!
