//! A business process within a project, and its lifecycle status.

use vstd::prelude::*;

verus! {

/// A process's lifecycle status, carried over the wire and stored as one
/// of three stable lowercase strings.
#[derive(Debug, Clone, Copy, PartialEq, Eq, Structural)]
pub enum ProcessStatus {
    Draft,
    InProgress,
    Completed,
}

/// The stable string of each status.
pub open spec fn status_text(s: ProcessStatus) -> Seq<char> {
    match s {
        ProcessStatus::Draft => "draft"@,
        ProcessStatus::InProgress => "in_progress"@,
        ProcessStatus::Completed => "completed"@,
    }
}

/// The status a string names, if any.
pub open spec fn status_of_text(t: Seq<char>) -> Option<ProcessStatus> {
    if t == "draft"@ {
        Some(ProcessStatus::Draft)
    } else if t == "in_progress"@ {
        Some(ProcessStatus::InProgress)
    } else if t == "completed"@ {
        Some(ProcessStatus::Completed)
    } else {
        None
    }
}

impl ProcessStatus {
    pub fn as_str(self) -> (r: &'static str)
        ensures
            r@ == status_text(self),
    {
        match self {
            ProcessStatus::Draft => "draft",
            ProcessStatus::InProgress => "in_progress",
            ProcessStatus::Completed => "completed",
        }
    }

    /// Parses one of the three stable strings; `None` for anything else.
    pub fn parse(value: &str) -> (r: Option<ProcessStatus>)
        ensures
            r == status_of_text(value@),
    {
        let v = String::from_str(value);
        let draft = String::from_str("draft");
        let in_progress = String::from_str("in_progress");
        let completed = String::from_str("completed");
        if v == draft {
            Some(ProcessStatus::Draft)
        } else if v == in_progress {
            Some(ProcessStatus::InProgress)
        } else if v == completed {
            Some(ProcessStatus::Completed)
        } else {
            None
        }
    }
}

/// Parsing a status's own string gives that status back.
pub proof fn lemma_status_round_trip(s: ProcessStatus)
    ensures
        status_of_text(status_text(s)) == Some(s),
{
    reveal_strlit("draft");
    reveal_strlit("in_progress");
    reveal_strlit("completed");
    assert("draft"@ != "in_progress"@) by { assert("draft"@.len() != "in_progress"@.len() || "draft"@[0] != "in_progress"@[0]); }
    assert("completed"@ != "draft"@) by { assert("completed"@.len() != "draft"@.len() || "completed"@[0] != "draft"@[0]); }
    assert("completed"@ != "in_progress"@) by { assert("completed"@.len() != "in_progress"@.len() || "completed"@[0] != "in_progress"@[0]); }
}

/// A string that parses to a status is that status's own string.
pub proof fn lemma_status_parse_is_exact(t: Seq<char>)
    ensures
        status_of_text(t) matches Some(s) ==> status_text(s) == t,
{
}

#[derive(Debug, Clone)]
pub struct Process {
    pub id: String,
    pub project_id: String,
    pub name: String,
    pub description: String,
    pub status: ProcessStatus,
    /// Unix epoch milliseconds (UTC). Set once at creation, never changed.
    pub created_at: i64,
    /// Unix epoch milliseconds (UTC). Bumped whenever the process changes.
    pub updated_at: i64,
}

pub struct ProcessView {
    pub id: Seq<char>,
    pub project_id: Seq<char>,
    pub name: Seq<char>,
    pub description: Seq<char>,
    pub status: ProcessStatus,
    pub created_at: i64,
    pub updated_at: i64,
}

impl View for Process {
    type V = ProcessView;

    open spec fn view(&self) -> ProcessView {
        ProcessView {
            id: self.id@,
            project_id: self.project_id@,
            name: self.name@,
            description: self.description@,
            status: self.status,
            created_at: self.created_at,
            updated_at: self.updated_at,
        }
    }
}

impl Process {
    /// A field-by-field copy.
    pub fn duplicate(&self) -> (r: Process)
        ensures
            r@ == self@,
    {
        Process {
            id: self.id.clone(),
            project_id: self.project_id.clone(),
            name: self.name.clone(),
            description: self.description.clone(),
            status: self.status,
            created_at: self.created_at,
            updated_at: self.updated_at,
        }
    }
}

} // verus!
