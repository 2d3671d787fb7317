//! Small validated values: identifiers, keys, priorities and states.
pub mod api_key;
pub mod issue_id;
pub mod label_id;
pub mod priority;
pub mod project_id;
pub mod project_state;
pub mod workflow_state;
pub mod workflow_state_ref;
pub mod team_id;
pub mod user_id;

pub use label_id::LabelId;
pub use user_id::UserId;
pub use project_id::ProjectId;
pub use project_state::ProjectState;
pub use workflow_state_ref::WorkflowStateRef;
