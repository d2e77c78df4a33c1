//! The messages that the contract accepts.

use crate::state::ProjectStatus;
use vstd::prelude::*;

verus! {

/// Sets the contract up.
#[derive(Clone, Debug, PartialEq)]
pub struct InstantiateMsg {
    /// The identity to make admin. Without one, the sender becomes admin.
    pub admin: Option<String>,
}

/// An operation that may change the state.
#[derive(Clone, Debug, PartialEq)]
pub enum ExecuteMsg {
    CreateProject { title: String, description: String, skills_required: Vec<String>, is_paid: bool },
    UpdateProjectStatus { project_id: String, status: ProjectStatus },
    RequestCollaboration { project_id: String, collaborator: String },
    DeleteProject { project_id: String },
}

/// An operation that only reads the state.
#[derive(Clone, Debug, PartialEq)]
pub enum QueryMsg {
    GetProject { project_id: String },
    ListProjects {},
}

} // verus!
