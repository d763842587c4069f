//! The persistence boundary: one trait per domain, each describing the
//! stored rows as a sequence, with an in-memory implementation.

pub mod order;
pub mod table;
pub mod project;
pub mod process;
pub mod capture;
pub mod process_version;
pub mod storage_status;
