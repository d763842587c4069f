//! `CaptureRepository`: the persistence boundary for captures.

use crate::errors::AppError;
use crate::models::capture::{Capture, CaptureView};
use crate::repositories::order::{views, Stamped};
use crate::repositories::table::{
    children, has_key, is_row_with_key, lists, overwritten_rows, without_key, Record, Table,
};
use vstd::prelude::*;

verus! {

impl Stamped for Capture {
    open spec fn stamp_of(v: CaptureView) -> i64 {
        v.updated_at
    }

    fn stamp(&self) -> (r: i64) {
        self.updated_at
    }
}

impl Record for Capture {
    open spec fn key_of(v: CaptureView) -> Seq<char> {
        v.id
    }

    open spec fn parent_of(v: CaptureView) -> Seq<char> {
        v.process_id
    }

    /// An update writes type, title, description and `updated_at`; id,
    /// process and `created_at` stay.
    open spec fn overwritten(stored: CaptureView, incoming: CaptureView) -> CaptureView {
        CaptureView {
            capture_type: incoming.capture_type,
            title: incoming.title,
            description: incoming.description,
            updated_at: incoming.updated_at,
            ..stored
        }
    }

    fn key_is(&self, key: &String) -> (r: bool) {
        self.id == *key
    }

    fn parent_is(&self, parent: &String) -> (r: bool) {
        self.process_id == *parent
    }

    fn key_string(&self) -> (r: String) {
        self.id.clone()
    }

    fn copy(&self) -> (r: Capture) {
        self.duplicate()
    }

    fn overwrite(&self, incoming: &Capture) -> (r: Capture) {
        Capture {
            id: self.id.clone(),
            process_id: self.process_id.clone(),
            capture_type: incoming.capture_type,
            title: incoming.title.clone(),
            description: incoming.description.clone(),
            created_at: self.created_at,
            updated_at: incoming.updated_at,
        }
    }
}

/// The ids of `rows`, in order.
pub open spec fn capture_ids(rows: Seq<CaptureView>) -> Seq<Seq<char>> {
    rows.map_values(|c: CaptureView| c.id)
}

/// An update never adds or removes a capture, and never changes a
/// capture's id, process or creation time.
pub proof fn lemma_update_keeps_captures(rows: Seq<CaptureView>, incoming: CaptureView)
    ensures
        overwritten_rows::<Capture>(rows, incoming).len() == rows.len(),
        forall|i: int|
            0 <= i < rows.len() ==> {
                let after = #[trigger] overwritten_rows::<Capture>(rows, incoming)[i];
                &&& after.id == rows[i].id
                &&& after.process_id == rows[i].process_id
                &&& after.created_at == rows[i].created_at
            },
{
}

/// Stored captures, in insertion order; ids are unique because `create`
/// refuses a taken id.
pub trait CaptureRepository {
    spec fn rows(&self) -> Seq<CaptureView>;

    /// Whether this store always answers: every call succeeds unless its
    /// contract says it is refused.
    spec fn reliable(&self) -> bool;

    /// Stores `capture`; refused when its id is taken.
    fn create(&mut self, capture: &Capture) -> (r: Result<(), AppError>)
        ensures
            r is Ok ==> !has_key::<Capture>(old(self).rows(), capture.id@) && final(self).rows()
                == old(self).rows().push(capture@),
            r is Err ==> final(self).rows() == old(self).rows(),
            r matches Err(e) ==> crate::errors::is_store_error(e),
            final(self).reliable() == old(self).reliable(),
            old(self).reliable() && !has_key::<Capture>(old(self).rows(), capture.id@) ==> r is Ok,
    ;

    /// The captures of `process_id`, most recently updated first.
    fn list_by_process(&self, process_id: &str) -> (r: Result<Vec<Capture>, AppError>)
        ensures
            r matches Ok(v) ==> lists::<Capture>(
                views(v@),
                children::<Capture>(self.rows(), process_id@),
            ),
            r matches Err(e) ==> crate::errors::is_store_error(e),
            self.reliable() ==> r is Ok,
    ;

    fn get(&self, id: &str) -> (r: Result<Option<Capture>, AppError>)
        ensures
            r matches Ok(o) ==> match o {
                Some(c) => is_row_with_key::<Capture>(self.rows(), id@, c@),
                None => !has_key::<Capture>(self.rows(), id@),
            },
            r matches Err(e) ==> crate::errors::is_store_error(e),
            self.reliable() ==> r is Ok,
    ;

    /// Writes type, title, description and `updated_at` to the capture
    /// with `capture`'s id; whether one existed.
    fn update(&mut self, capture: &Capture) -> (r: Result<bool, AppError>)
        ensures
            match r {
                Ok(b) => b == has_key::<Capture>(old(self).rows(), capture.id@) && final(self).rows() == overwritten_rows::<Capture>(old(self).rows(), capture@),
                Err(_) => final(self).rows() == old(self).rows(),
            },
            r matches Err(e) ==> crate::errors::is_store_error(e),
            final(self).reliable() == old(self).reliable(),
            old(self).reliable() ==> r is Ok,
    ;

    /// Removes the capture with id `id`; whether one existed.
    fn delete(&mut self, id: &str) -> (r: Result<bool, AppError>)
        ensures
            match r {
                Ok(b) => b == has_key::<Capture>(old(self).rows(), id@) && final(self).rows()
                    == without_key::<Capture>(old(self).rows(), id@),
                Err(_) => final(self).rows() == old(self).rows(),
            },
            r matches Err(e) ==> crate::errors::is_store_error(e),
            final(self).reliable() == old(self).reliable(),
            old(self).reliable() ==> r is Ok,
    ;

    /// Every capture id, across every process.
    fn list_all_ids(&self) -> (r: Result<Vec<String>, AppError>)
        ensures
            r matches Ok(v) ==> v@.map_values(|s: String| s@).to_multiset() == capture_ids(
                self.rows(),
            ).to_multiset(),
            r matches Err(e) ==> crate::errors::is_store_error(e),
            self.reliable() ==> r is Ok,
    ;
}

/// Captures held in memory; a read-only table refuses every new capture.
pub struct MemoryCaptureRepository {
    table: Table<Capture>,
    read_only: bool,
}

impl MemoryCaptureRepository {
    pub fn new() -> (r: Self)
        ensures
            r.reliable(),
            r.rows() == Seq::<CaptureView>::empty(),
    {
        MemoryCaptureRepository { table: Table::new(), read_only: false }
    }

    /// An empty table that refuses every new capture with a database
    /// error, as a store that cannot be written does.
    pub fn read_only() -> (r: Self)
        ensures
            !r.reliable(),
            r.rows() == Seq::<CaptureView>::empty(),
    {
        MemoryCaptureRepository { table: Table::new(), read_only: true }
    }

    /// Every stored capture, most recently stamped first.
    pub fn all(&self) -> (r: Vec<Capture>)
        ensures
            lists::<Capture>(views(r@), self.rows()),
    {
        self.table.all()
    }
}

impl CaptureRepository for MemoryCaptureRepository {
    closed spec fn rows(&self) -> Seq<CaptureView> {
        self.table.rows()
    }

    closed spec fn reliable(&self) -> bool {
        !self.read_only
    }

    fn create(&mut self, capture: &Capture) -> (r: Result<(), AppError>) {
        if self.read_only {
            return Err(AppError::Database);
        }
        if self.table.insert(capture.duplicate()) {
            Ok(())
        } else {
            Err(AppError::Database)
        }
    }

    fn list_by_process(&self, process_id: &str) -> (r: Result<Vec<Capture>, AppError>) {
        Ok(self.table.children_of(process_id))
    }

    fn get(&self, id: &str) -> (r: Result<Option<Capture>, AppError>) {
        Ok(self.table.get(id))
    }

    fn update(&mut self, capture: &Capture) -> (r: Result<bool, AppError>) {
        Ok(self.table.overwrite(capture))
    }

    fn delete(&mut self, id: &str) -> (r: Result<bool, AppError>) {
        Ok(self.table.remove(id))
    }

    fn list_all_ids(&self) -> (r: Result<Vec<String>, AppError>) {
        let v = self.table.keys();
        assert(v@.map_values(|s: String| s@) =~= capture_ids(self.rows()));
        Ok(v)
    }
}

} // verus!
