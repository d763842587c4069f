//! The requests the desktop app's commands accept, and the command logic
//! that spans more than one service.

pub mod ai;
pub mod capture;
pub mod export;
pub mod process;
pub mod project;
pub mod recording;
pub mod settings;
pub mod storage;
