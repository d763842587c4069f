//! Requests of the AI draft commands.

use crate::ai::ProcessDraft;
use vstd::prelude::*;

verus! {

pub struct GenerateProcessDraftInput {
    pub process_id: String,
}

pub struct ListProcessVersionsInput {
    pub process_id: String,
}

/// A whole edited draft, saved in one call.
pub struct UpdateProcessVersionContentInput {
    pub id: String,
    pub content: ProcessDraft,
}

} // verus!
