//! Requests of the process commands.

use vstd::prelude::*;

verus! {

pub struct CreateProcessInput {
    pub project_id: String,
    pub name: String,
    pub description: Option<String>,
}

pub struct ListProcessesInput {
    pub project_id: String,
}

/// An update has no field for the project or the timestamps: a process
/// never moves to another project.
pub struct UpdateProcessInput {
    pub id: String,
    pub name: String,
    pub description: Option<String>,
    pub status: String,
}

} // verus!
