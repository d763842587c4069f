//! The domain models and their mathematical views.

pub mod project;
pub mod process;
pub mod capture;
pub mod process_version;
