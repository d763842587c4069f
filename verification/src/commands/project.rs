//! Requests of the project commands.

use vstd::prelude::*;

verus! {

pub struct CreateProjectInput {
    pub name: String,
    pub description: Option<String>,
}

/// An update carries only the id and the editable fields.
pub struct UpdateProjectInput {
    pub id: String,
    pub name: String,
    pub description: Option<String>,
}

} // verus!
