//! The business logic between the commands and the repositories.

pub mod project;
pub mod process;
pub mod capture;
pub mod settings;
pub mod process_draft;
pub mod latex_export;
pub mod cited;
pub mod docx_export;
