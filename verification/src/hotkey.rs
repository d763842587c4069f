//! The global capture shortcut: a screenshot of the active process,
//! taken from anywhere.

use crate::active_process::ActiveProcessState;
use crate::errors::{error_message, AppError};
use crate::media::MediaFiles;
use crate::models::capture::{Capture, CaptureType};
use crate::native::screenshot::ScreenshotEngine;
use crate::repositories::capture::CaptureRepository;
use crate::repositories::process::ProcessRepository;
use crate::services::capture::CaptureService;
use vstd::prelude::*;

verus! {

/// The title of a screenshot taken with the shortcut.
pub const HOTKEY_CAPTURE_TITLE: &'static str = "Screenshot";

/// What the widget is told after the shortcut was pressed.
pub enum CaptureResult {
    Captured,
    Error { message: String },
    NoActiveProcess,
}

/// Takes a screenshot for the active process, titled "Screenshot"; with
/// no active process nothing is taken. Gives what to tell the widget,
/// and the capture when one was created.
pub fn capture_for_active_process<
    R: CaptureRepository,
    P: ProcessRepository,
    F: MediaFiles,
    S: ScreenshotEngine,
>(active: &ActiveProcessState, service: &mut CaptureService<R, P, F, S>) -> (r: (
    CaptureResult,
    Option<Capture>,
))
    ensures
        active.active() is None ==> (r.0 is NoActiveProcess && r.1 is None && final(service).rows()
            == old(service).rows()),
        active.active() matches Some(a) ==> match r.0 {
            CaptureResult::Captured => r.1 matches Some(c) && c.process_id@ == a.process_id
                && c.title@ == HOTKEY_CAPTURE_TITLE@ && c.capture_type == CaptureType::Screenshot
                && final(service).rows() == old(service).rows().push(c@),
            CaptureResult::Error { .. } => r.1 is None && final(service).rows() == old(service).rows(),
            CaptureResult::NoActiveProcess => false,
        },
{
    let current = active.get();
    match current {
        None => (CaptureResult::NoActiveProcess, None),
        Some(info) => {
            proof {
                reveal_strlit("Screenshot");
                crate::text::lemma_trim_of_trimmed(HOTKEY_CAPTURE_TITLE@);
            }
            match service.create_screenshot(info.process_id.as_str(), HOTKEY_CAPTURE_TITLE, None) {
                Ok(capture) => (CaptureResult::Captured, Some(capture)),
                Err(err) => (CaptureResult::Error { message: err.message() }, None),
            }
        },
    }
}

} // verus!
