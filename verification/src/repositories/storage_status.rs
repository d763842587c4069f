//! `StorageStatusRepository`: the marker recording when local storage
//! was first initialized.

use crate::clock::now_secs;
use crate::errors::{is_store_error, AppError};
use crate::text::decimal_string;
use vstd::prelude::*;

verus! {

/// The key the marker is stored under.
pub const STORAGE_MARKER_KEY: &'static str = "storage_initialized_at";

/// Holds the storage marker: the Unix time, in decimal seconds, at which
/// storage was first initialized.
pub trait StorageStatusRepository {
    /// The stored marker, if any.
    spec fn marker(&self) -> Option<Seq<char>>;

    /// Whether this store always answers.
    spec fn reliable(&self) -> bool;

    /// The stored marker; the first call stores the current time, and
    /// every later call gives that same value back.
    fn ensure_marker(&mut self) -> (r: Result<String, AppError>)
        ensures
            match r {
                Ok(v) => final(self).marker() == Some(v@) && (old(self).marker() matches Some(m)
                    ==> v@ == m),
                Err(e) => is_store_error(e) && final(self).marker() == old(self).marker(),
            },
            final(self).reliable() == old(self).reliable(),
            old(self).reliable() ==> r is Ok,
    ;
}

/// The marker held in memory.
pub struct MemoryStorageStatusRepository {
    marker: Option<String>,
}

impl MemoryStorageStatusRepository {
    pub fn new() -> (r: Self)
        ensures
            r.marker() is None,
            r.reliable(),
    {
        MemoryStorageStatusRepository { marker: None }
    }

    /// A store already holding `marker`.
    pub fn with_marker(marker: String) -> (r: Self)
        ensures
            r.marker() == Some(marker@),
            r.reliable(),
    {
        MemoryStorageStatusRepository { marker: Some(marker) }
    }
}

impl StorageStatusRepository for MemoryStorageStatusRepository {
    closed spec fn marker(&self) -> Option<Seq<char>> {
        match self.marker {
            Some(m) => Some(m@),
            None => None,
        }
    }

    closed spec fn reliable(&self) -> bool {
        true
    }

    fn ensure_marker(&mut self) -> (r: Result<String, AppError>) {
        match &self.marker {
            Some(m) => Ok(m.clone()),
            None => {
                let secs = now_secs();
                let value = decimal_string(secs);
                self.marker = Some(value.clone());
                Ok(value)
            },
        }
    }
}

} // verus!
