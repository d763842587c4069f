//! Screenshot capture of the primary display.

use crate::errors::AppError;
use vstd::prelude::*;

verus! {

/// Captures the primary display as PNG bytes. What the screen shows is
/// outside the library's knowledge: nothing is promised of the bytes.
pub trait ScreenshotEngine {
    fn capture_primary_display(&self) -> (r: Result<Vec<u8>, AppError>);
}

} // verus!
