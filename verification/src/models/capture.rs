//! A single piece of evidence collected while documenting a process.

use vstd::prelude::*;

verus! {

/// The kind of evidence a capture represents, carried over the wire and
/// stored as one of three stable lowercase strings.
#[derive(Debug, Clone, Copy, PartialEq, Eq, Structural)]
pub enum CaptureType {
    Screenshot,
    Recording,
    Note,
}

/// The stable string of each capture type.
pub open spec fn capture_type_text(t: CaptureType) -> Seq<char> {
    match t {
        CaptureType::Screenshot => "screenshot"@,
        CaptureType::Recording => "recording"@,
        CaptureType::Note => "note"@,
    }
}

/// The capture type a string names, if any.
pub open spec fn capture_type_of_text(t: Seq<char>) -> Option<CaptureType> {
    if t == "screenshot"@ {
        Some(CaptureType::Screenshot)
    } else if t == "recording"@ {
        Some(CaptureType::Recording)
    } else if t == "note"@ {
        Some(CaptureType::Note)
    } else {
        None
    }
}

impl CaptureType {
    pub fn as_str(self) -> (r: &'static str)
        ensures
            r@ == capture_type_text(self),
    {
        match self {
            CaptureType::Screenshot => "screenshot",
            CaptureType::Recording => "recording",
            CaptureType::Note => "note",
        }
    }

    /// Parses one of the three stable strings; `None` for anything else.
    pub fn parse(value: &str) -> (r: Option<CaptureType>)
        ensures
            r == capture_type_of_text(value@),
    {
        let v = String::from_str(value);
        let screenshot = String::from_str("screenshot");
        let recording = String::from_str("recording");
        let note = String::from_str("note");
        if v == screenshot {
            Some(CaptureType::Screenshot)
        } else if v == recording {
            Some(CaptureType::Recording)
        } else if v == note {
            Some(CaptureType::Note)
        } else {
            None
        }
    }
}

/// Parsing a capture type's own string gives that type back.
pub proof fn lemma_capture_type_round_trip(t: CaptureType)
    ensures
        capture_type_of_text(capture_type_text(t)) == Some(t),
{
    reveal_strlit("screenshot");
    reveal_strlit("recording");
    reveal_strlit("note");
    assert("recording"@ != "screenshot"@) by { assert("recording"@.len() != "screenshot"@.len() || "recording"@[0] != "screenshot"@[0]); }
    assert("note"@ != "screenshot"@) by { assert("note"@.len() != "screenshot"@.len() || "note"@[0] != "screenshot"@[0]); }
    assert("note"@ != "recording"@) by { assert("note"@.len() != "recording"@.len() || "note"@[0] != "recording"@[0]); }
}

/// A string that parses to a capture type is that type's own string.
pub proof fn lemma_capture_type_parse_is_exact(t: Seq<char>)
    ensures
        capture_type_of_text(t) matches Some(c) ==> capture_type_text(c) == t,
{
}

#[derive(Debug, Clone)]
pub struct Capture {
    pub id: String,
    pub process_id: String,
    pub capture_type: CaptureType,
    pub title: String,
    pub description: String,
    /// Unix epoch milliseconds (UTC). Set once at creation, never changed.
    pub created_at: i64,
    /// Unix epoch milliseconds (UTC). Bumped whenever the capture changes.
    pub updated_at: i64,
}

pub struct CaptureView {
    pub id: Seq<char>,
    pub process_id: Seq<char>,
    pub capture_type: CaptureType,
    pub title: Seq<char>,
    pub description: Seq<char>,
    pub created_at: i64,
    pub updated_at: i64,
}

impl View for Capture {
    type V = CaptureView;

    open spec fn view(&self) -> CaptureView {
        CaptureView {
            id: self.id@,
            process_id: self.process_id@,
            capture_type: self.capture_type,
            title: self.title@,
            description: self.description@,
            created_at: self.created_at,
            updated_at: self.updated_at,
        }
    }
}

impl Capture {
    /// A field-by-field copy.
    pub fn duplicate(&self) -> (r: Capture)
        ensures
            r@ == self@,
    {
        Capture {
            id: self.id.clone(),
            process_id: self.process_id.clone(),
            capture_type: self.capture_type,
            title: self.title.clone(),
            description: self.description.clone(),
            created_at: self.created_at,
            updated_at: self.updated_at,
        }
    }
}

} // verus!
