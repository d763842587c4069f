//! The boundary to the operating system's screen and audio capture.

pub mod screenshot;
pub mod recording;
