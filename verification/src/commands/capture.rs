//! Requests of the capture commands.

use vstd::prelude::*;

verus! {

pub struct CreateCaptureInput {
    pub process_id: String,
    pub capture_type: String,
    pub title: String,
    pub description: Option<String>,
}

pub struct ListCapturesInput {
    pub process_id: String,
}

/// An update has no field for the process or the timestamps: a capture
/// never moves to another process.
pub struct UpdateCaptureInput {
    pub id: String,
    pub capture_type: String,
    pub title: String,
    pub description: Option<String>,
}

/// A screenshot request: always of type screenshot, so there is no type.
pub struct CreateScreenshotInput {
    pub process_id: String,
    pub title: String,
    pub description: Option<String>,
}

} // verus!
