//! One persisted AI-generated draft of a process, editable in place.

use crate::ai::{DraftView, ProcessDraft};
use vstd::prelude::*;

verus! {

#[derive(Debug, Clone, PartialEq)]
pub struct ProcessVersion {
    pub id: String,
    pub process_id: String,
    pub content: ProcessDraft,
    /// Unix epoch milliseconds (UTC). Set once at creation.
    pub created_at: i64,
    /// Unix epoch milliseconds (UTC). Bumped only when a user edits the content.
    pub updated_at: i64,
}

pub struct ProcessVersionView {
    pub id: Seq<char>,
    pub process_id: Seq<char>,
    pub content: DraftView,
    pub created_at: i64,
    pub updated_at: i64,
}

impl View for ProcessVersion {
    type V = ProcessVersionView;

    open spec fn view(&self) -> ProcessVersionView {
        ProcessVersionView {
            id: self.id@,
            process_id: self.process_id@,
            content: self.content@,
            created_at: self.created_at,
            updated_at: self.updated_at,
        }
    }
}

impl ProcessVersion {
    /// A field-by-field copy.
    pub fn duplicate(&self) -> (r: ProcessVersion)
        ensures
            r@ == self@,
    {
        ProcessVersion {
            id: self.id.clone(),
            process_id: self.process_id.clone(),
            content: self.content.duplicate(),
            created_at: self.created_at,
            updated_at: self.updated_at,
        }
    }
}

} // verus!
