//! `ProcessVersionRepository`: the persistence boundary for generated
//! process drafts. A version is never individually removed; regeneration
//! always inserts a new row, and only a user edit changes one in place.

use crate::ai::{DraftView, ProcessDraft};
use crate::errors::AppError;
use crate::models::process_version::{ProcessVersion, ProcessVersionView};
use crate::repositories::order::{views, Stamped};
use crate::repositories::table::{
    first_with_key,
    children, has_key, is_newest, is_row_with_key, lists, overwritten_rows, Record, Table,
};
use vstd::prelude::*;

verus! {

impl Stamped for ProcessVersion {
    open spec fn stamp_of(v: ProcessVersionView) -> i64 {
        v.created_at
    }

    fn stamp(&self) -> (r: i64) {
        self.created_at
    }
}

impl Record for ProcessVersion {
    open spec fn key_of(v: ProcessVersionView) -> Seq<char> {
        v.id
    }

    open spec fn parent_of(v: ProcessVersionView) -> Seq<char> {
        v.process_id
    }

    /// An edit writes content and `updated_at`; id, process and
    /// `created_at` stay.
    open spec fn overwritten(
        stored: ProcessVersionView,
        incoming: ProcessVersionView,
    ) -> ProcessVersionView {
        ProcessVersionView { content: incoming.content, updated_at: incoming.updated_at, ..stored }
    }

    fn key_is(&self, key: &String) -> (r: bool) {
        self.id == *key
    }

    fn parent_is(&self, parent: &String) -> (r: bool) {
        self.process_id == *parent
    }

    fn key_string(&self) -> (r: String) {
        self.id.clone()
    }

    fn copy(&self) -> (r: ProcessVersion) {
        self.duplicate()
    }

    fn overwrite(&self, incoming: &ProcessVersion) -> (r: ProcessVersion) {
        ProcessVersion {
            id: self.id.clone(),
            process_id: self.process_id.clone(),
            content: incoming.content.duplicate(),
            created_at: self.created_at,
            updated_at: incoming.updated_at,
        }
    }
}

/// The rows after an edit of version `id`'s content.
pub open spec fn edited_rows(
    rows: Seq<ProcessVersionView>,
    id: Seq<char>,
    content: DraftView,
    updated_at: i64,
) -> Seq<ProcessVersionView> {
    rows.map_values(
        |r: ProcessVersionView|
            if r.id == id {
                ProcessVersionView { content, updated_at, ..r }
            } else {
                r
            },
    )
}

/// Editing a version never adds or removes one: every version keeps its
/// id, process and creation time, and only the edited one takes the new
/// content and `updated_at`.
pub proof fn lemma_edit_keeps_versions(
    rows: Seq<ProcessVersionView>,
    id: Seq<char>,
    content: DraftView,
    updated_at: i64,
)
    ensures
        edited_rows(rows, id, content, updated_at).len() == rows.len(),
        forall|i: int|
            0 <= i < rows.len() ==> {
                let after = #[trigger] edited_rows(rows, id, content, updated_at)[i];
                &&& after.id == rows[i].id
                &&& after.process_id == rows[i].process_id
                &&& after.created_at == rows[i].created_at
                &&& rows[i].id == id ==> after.content == content && after.updated_at == updated_at
                &&& rows[i].id != id ==> after == rows[i]
            },
{
}

/// Stored versions, in insertion order; ids are unique because `create`
/// refuses a taken id.
pub trait ProcessVersionRepository {
    spec fn rows(&self) -> Seq<ProcessVersionView>;

    /// Whether this store always answers: every call succeeds unless its
    /// contract says it is refused.
    spec fn reliable(&self) -> bool;

    /// Stores `version`; refused when its id is taken.
    fn create(&mut self, version: &ProcessVersion) -> (r: Result<(), AppError>)
        ensures
            r is Ok ==> !has_key::<ProcessVersion>(old(self).rows(), version.id@) && final(self).rows() == old(self).rows().push(version@),
            r is Err ==> final(self).rows() == old(self).rows(),
            r matches Err(e) ==> crate::errors::is_store_error(e),
            final(self).reliable() == old(self).reliable(),
            old(self).reliable() && !has_key::<ProcessVersion>(old(self).rows(), version.id@) ==> r is Ok,
    ;

    /// The versions of `process_id`, newest created first.
    fn list_by_process(&self, process_id: &str) -> (r: Result<Vec<ProcessVersion>, AppError>)
        ensures
            r matches Ok(v) ==> lists::<ProcessVersion>(
                views(v@),
                children::<ProcessVersion>(self.rows(), process_id@),
            ),
            r matches Err(e) ==> crate::errors::is_store_error(e),
            self.reliable() ==> r is Ok,
    ;

    /// The newest created version of `process_id`, if it has any.
    fn get_latest_by_process(&self, process_id: &str) -> (r: Result<
        Option<ProcessVersion>,
        AppError,
    >)
        ensures
            r matches Ok(o) ==> match o {
                Some(v) => is_newest::<ProcessVersion>(
                    children::<ProcessVersion>(self.rows(), process_id@),
                    v@,
                ),
                None => children::<ProcessVersion>(self.rows(), process_id@).len() == 0,
            },
            r matches Err(e) ==> crate::errors::is_store_error(e),
            self.reliable() ==> r is Ok,
    ;

    fn get(&self, id: &str) -> (r: Result<Option<ProcessVersion>, AppError>)
        ensures
            r matches Ok(o) ==> match o {
                Some(v) => is_row_with_key::<ProcessVersion>(self.rows(), id@, v@),
                None => !has_key::<ProcessVersion>(self.rows(), id@),
            },
            r matches Ok(o) ==> first_with_key::<ProcessVersion>(self.rows(), id@) == match o {
                Some(v) => Some(v@),
                None => None,
            },
            r matches Err(e) ==> crate::errors::is_store_error(e),
            self.reliable() ==> r is Ok,
    ;

    /// Writes `content` and `updated_at` to version `id`; whether it existed.
    fn update_content(&mut self, id: &str, content: &ProcessDraft, updated_at: i64) -> (r: Result<
        bool,
        AppError,
    >)
        ensures
            match r {
                Ok(b) => b == has_key::<ProcessVersion>(old(self).rows(), id@) && final(self).rows() == edited_rows(old(self).rows(), id@, content@, updated_at),
                Err(_) => final(self).rows() == old(self).rows(),
            },
            r matches Err(e) ==> crate::errors::is_store_error(e),
            final(self).reliable() == old(self).reliable(),
            old(self).reliable() ==> r is Ok,
    ;
}

/// Versions held in memory.
pub struct MemoryProcessVersionRepository {
    table: Table<ProcessVersion>,
}

impl MemoryProcessVersionRepository {
    pub fn new() -> (r: Self)
        ensures
            r.reliable(),
            r.rows() == Seq::<ProcessVersionView>::empty(),
    {
        MemoryProcessVersionRepository { table: Table::new() }
    }

    /// Every stored version, most recently stamped first.
    pub fn all(&self) -> (r: Vec<ProcessVersion>)
        ensures
            lists::<ProcessVersion>(views(r@), self.rows()),
    {
        self.table.all()
    }
}

impl ProcessVersionRepository for MemoryProcessVersionRepository {
    closed spec fn rows(&self) -> Seq<ProcessVersionView> {
        self.table.rows()
    }

    closed spec fn reliable(&self) -> bool {
        true
    }

    fn create(&mut self, version: &ProcessVersion) -> (r: Result<(), AppError>) {
        if self.table.insert(version.duplicate()) {
            Ok(())
        } else {
            Err(AppError::Database)
        }
    }

    fn list_by_process(&self, process_id: &str) -> (r: Result<Vec<ProcessVersion>, AppError>) {
        Ok(self.table.children_of(process_id))
    }

    fn get_latest_by_process(&self, process_id: &str) -> (r: Result<
        Option<ProcessVersion>,
        AppError,
    >) {
        Ok(self.table.newest_child(process_id))
    }

    fn get(&self, id: &str) -> (r: Result<Option<ProcessVersion>, AppError>) {
        Ok(self.table.get(id))
    }

    fn update_content(&mut self, id: &str, content: &ProcessDraft, updated_at: i64) -> (r: Result<
        bool,
        AppError,
    >) {
        let incoming = ProcessVersion {
            id: String::from_str(id),
            process_id: String::new(),
            content: content.duplicate(),
            created_at: 0,
            updated_at,
        };
        let found = self.table.overwrite(&incoming);
        assert(overwritten_rows::<ProcessVersion>(old(self).rows(), incoming@) =~= edited_rows(
            old(self).rows(),
            id@,
            content@,
            updated_at,
        ));
        Ok(found)
    }
}

} // verus!
