//! The local storage status the main window shows at start-up.

use crate::errors::{is_store_error, AppError};
use crate::repositories::storage_status::StorageStatusRepository;
use vstd::prelude::*;

verus! {

/// Whether local storage is ready, and since when.
pub struct LocalStorageStatus {
    pub ready: bool,
    pub initialized_at: String,
}

/// The status of local storage: ready, initialized at the stored marker
/// (stored now when there is none yet).
pub fn get_local_storage_status<R: StorageStatusRepository>(repo: &mut R) -> (r: Result<
    LocalStorageStatus,
    AppError,
>)
    ensures
        match r {
            Ok(s) => s.ready && final(repo).marker() == Some(s.initialized_at@) && (old(repo).marker() matches Some(m) ==> s.initialized_at@ == m),
            Err(e) => is_store_error(e) && final(repo).marker() == old(repo).marker(),
        },
        final(repo).reliable() == old(repo).reliable(),
        old(repo).reliable() ==> r is Ok,
{
    let initialized_at = repo.ensure_marker()?;
    Ok(LocalStorageStatus { ready: true, initialized_at })
}

} // verus!
