//! Application-level error type. Every fallible operation returns
//! `Result<T, AppError>`. Each variant carries a stable `code` and a
//! fixed, user-safe message; the variants holding a `String` carry an
//! author-written message meant to be shown as-is.

use vstd::prelude::*;

verus! {

#[derive(Debug)]
pub enum AppError {
    /// Local storage (data directory, database file, media files) is unavailable.
    Storage,
    /// A database read/write failed.
    Database,
    /// Schema migrations failed to apply.
    Migration,
    /// Input failed validation; the message says what to fix.
    Validation(String),
    /// The requested record does not exist.
    NotFound,
    /// A native capture operation failed.
    Capture(String),
    /// The OS credential store could not be used.
    Credential(String),
    /// An outbound network call failed.
    Network(String),
    /// The AI provider answered with something unusable.
    Ai(String),
    /// Writing an exported document failed.
    Export(String),
}

/// The stable machine-readable code of each variant.
pub open spec fn error_code(e: AppError) -> Seq<char> {
    match e {
        AppError::Storage => "storage_unavailable"@,
        AppError::Database => "database_error"@,
        AppError::Migration => "migration_error"@,
        AppError::Validation(_) => "validation_error"@,
        AppError::NotFound => "not_found"@,
        AppError::Capture(_) => "capture_error"@,
        AppError::Credential(_) => "credential_error"@,
        AppError::Network(_) => "network_error"@,
        AppError::Ai(_) => "ai_error"@,
        AppError::Export(_) => "export_error"@,
    }
}

/// The user-facing message of each variant.
pub open spec fn error_message(e: AppError) -> Seq<char> {
    match e {
        AppError::Storage => "Local application storage is unavailable. Try restarting GoLive."@,
        AppError::Database => "A local database operation failed."@,
        AppError::Migration => "GoLive's local database could not be prepared."@,
        AppError::Validation(m) => m@,
        AppError::NotFound => "The requested item could not be found."@,
        AppError::Capture(m) => m@,
        AppError::Credential(m) => m@,
        AppError::Network(m) => m@,
        AppError::Ai(m) => m@,
        AppError::Export(m) => m@,
    }
}

/// A failure of the storage layer itself (as opposed to a refusal).
pub open spec fn is_store_error(e: AppError) -> bool {
    e is Storage || e is Database
}

/// A `Validation` error whose message is `msg`.
pub open spec fn is_validation(e: AppError, msg: Seq<char>) -> bool {
    e matches AppError::Validation(m) && m@ == msg
}

impl AppError {
    /// The stable code sent to the frontend alongside the message.
    pub fn code(&self) -> (r: &'static str)
        ensures
            r@ == error_code(*self),
    {
        match self {
            AppError::Storage => "storage_unavailable",
            AppError::Database => "database_error",
            AppError::Migration => "migration_error",
            AppError::Validation(_) => "validation_error",
            AppError::NotFound => "not_found",
            AppError::Capture(_) => "capture_error",
            AppError::Credential(_) => "credential_error",
            AppError::Network(_) => "network_error",
            AppError::Ai(_) => "ai_error",
            AppError::Export(_) => "export_error",
        }
    }

    /// The message shown to the user: fixed text for the generic
    /// variants, the carried text for the others.
    pub fn message(&self) -> (r: String)
        ensures
            r@ == error_message(*self),
    {
        match self {
            AppError::Storage => String::from_str(
                "Local application storage is unavailable. Try restarting GoLive.",
            ),
            AppError::Database => String::from_str("A local database operation failed."),
            AppError::Migration => String::from_str("GoLive's local database could not be prepared."),
            AppError::Validation(m) => m.clone(),
            AppError::NotFound => String::from_str("The requested item could not be found."),
            AppError::Capture(m) => m.clone(),
            AppError::Credential(m) => m.clone(),
            AppError::Network(m) => m.clone(),
            AppError::Ai(m) => m.clone(),
            AppError::Export(m) => m.clone(),
        }
    }

    /// A `Validation` error carrying `msg`.
    pub fn validation(msg: &str) -> (e: AppError)
        ensures
            is_validation(e, msg@),
    {
        AppError::Validation(String::from_str(msg))
    }
}

} // verus!
