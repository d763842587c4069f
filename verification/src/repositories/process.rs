//! `ProcessRepository`: the persistence boundary for processes.

use crate::errors::AppError;
use crate::models::process::{Process, ProcessView};
use crate::repositories::order::{views, Stamped};
use crate::repositories::table::{
    first_with_key,
    children, has_key, is_row_with_key, lists, overwritten_rows, without_key, Record, Table,
};
use vstd::prelude::*;

verus! {

impl Stamped for Process {
    open spec fn stamp_of(v: ProcessView) -> i64 {
        v.updated_at
    }

    fn stamp(&self) -> (r: i64) {
        self.updated_at
    }
}

impl Record for Process {
    open spec fn key_of(v: ProcessView) -> Seq<char> {
        v.id
    }

    open spec fn parent_of(v: ProcessView) -> Seq<char> {
        v.project_id
    }

    /// An update writes name, description, status and `updated_at`; id,
    /// project and `created_at` stay.
    open spec fn overwritten(stored: ProcessView, incoming: ProcessView) -> ProcessView {
        ProcessView {
            name: incoming.name,
            description: incoming.description,
            status: incoming.status,
            updated_at: incoming.updated_at,
            ..stored
        }
    }

    fn key_is(&self, key: &String) -> (r: bool) {
        self.id == *key
    }

    fn parent_is(&self, parent: &String) -> (r: bool) {
        self.project_id == *parent
    }

    fn key_string(&self) -> (r: String) {
        self.id.clone()
    }

    fn copy(&self) -> (r: Process) {
        self.duplicate()
    }

    fn overwrite(&self, incoming: &Process) -> (r: Process) {
        Process {
            id: self.id.clone(),
            project_id: self.project_id.clone(),
            name: incoming.name.clone(),
            description: incoming.description.clone(),
            status: incoming.status,
            created_at: self.created_at,
            updated_at: incoming.updated_at,
        }
    }
}

/// An update never adds or removes a process, and never changes a
/// process's id, project or creation time.
pub proof fn lemma_update_keeps_processes(rows: Seq<ProcessView>, incoming: ProcessView)
    ensures
        overwritten_rows::<Process>(rows, incoming).len() == rows.len(),
        forall|i: int|
            0 <= i < rows.len() ==> {
                let after = #[trigger] overwritten_rows::<Process>(rows, incoming)[i];
                &&& after.id == rows[i].id
                &&& after.project_id == rows[i].project_id
                &&& after.created_at == rows[i].created_at
            },
{
}

/// Stored processes, in insertion order; ids are unique because
/// `create` refuses a taken id.
pub trait ProcessRepository {
    spec fn rows(&self) -> Seq<ProcessView>;

    /// Whether this store always answers: every call succeeds unless its
    /// contract says it is refused.
    spec fn reliable(&self) -> bool;

    /// Stores `process`; refused when its id is taken.
    fn create(&mut self, process: &Process) -> (r: Result<(), AppError>)
        ensures
            r is Ok ==> !has_key::<Process>(old(self).rows(), process.id@) && final(self).rows()
                == old(self).rows().push(process@),
            r is Err ==> final(self).rows() == old(self).rows(),
            r matches Err(e) ==> crate::errors::is_store_error(e),
            final(self).reliable() == old(self).reliable(),
            old(self).reliable() && !has_key::<Process>(old(self).rows(), process.id@) ==> r is Ok,
    ;

    /// The processes of `project_id`, most recently updated first.
    fn list_by_project(&self, project_id: &str) -> (r: Result<Vec<Process>, AppError>)
        ensures
            r matches Ok(v) ==> lists::<Process>(
                views(v@),
                children::<Process>(self.rows(), project_id@),
            ),
            r matches Err(e) ==> crate::errors::is_store_error(e),
            self.reliable() ==> r is Ok,
    ;

    fn get(&self, id: &str) -> (r: Result<Option<Process>, AppError>)
        ensures
            r matches Ok(o) ==> match o {
                Some(p) => is_row_with_key::<Process>(self.rows(), id@, p@),
                None => !has_key::<Process>(self.rows(), id@),
            },
            r matches Ok(o) ==> first_with_key::<Process>(self.rows(), id@) == match o {
                Some(p) => Some(p@),
                None => None,
            },
            r matches Err(e) ==> crate::errors::is_store_error(e),
            self.reliable() ==> r is Ok,
    ;

    /// Writes name, description, status and `updated_at` to the process
    /// with `process`'s id; whether one existed.
    fn update(&mut self, process: &Process) -> (r: Result<bool, AppError>)
        ensures
            match r {
                Ok(b) => b == has_key::<Process>(old(self).rows(), process.id@) && final(self).rows() == overwritten_rows::<Process>(old(self).rows(), process@),
                Err(_) => final(self).rows() == old(self).rows(),
            },
            r matches Err(e) ==> crate::errors::is_store_error(e),
            final(self).reliable() == old(self).reliable(),
            old(self).reliable() ==> r is Ok,
    ;

    /// Removes the process with id `id`; whether one existed.
    fn delete(&mut self, id: &str) -> (r: Result<bool, AppError>)
        ensures
            match r {
                Ok(b) => b == has_key::<Process>(old(self).rows(), id@) && final(self).rows()
                    == without_key::<Process>(old(self).rows(), id@),
                Err(_) => final(self).rows() == old(self).rows(),
            },
            r matches Err(e) ==> crate::errors::is_store_error(e),
            final(self).reliable() == old(self).reliable(),
            old(self).reliable() ==> r is Ok,
    ;
}

/// Processes held in memory.
pub struct MemoryProcessRepository {
    table: Table<Process>,
}

impl MemoryProcessRepository {
    pub fn new() -> (r: Self)
        ensures
            r.reliable(),
            r.rows() == Seq::<ProcessView>::empty(),
    {
        MemoryProcessRepository { table: Table::new() }
    }

    /// Every stored process, most recently stamped first.
    pub fn all(&self) -> (r: Vec<Process>)
        ensures
            lists::<Process>(views(r@), self.rows()),
    {
        self.table.all()
    }
}

impl ProcessRepository for MemoryProcessRepository {
    closed spec fn rows(&self) -> Seq<ProcessView> {
        self.table.rows()
    }

    closed spec fn reliable(&self) -> bool {
        true
    }

    fn create(&mut self, process: &Process) -> (r: Result<(), AppError>) {
        if self.table.insert(process.duplicate()) {
            Ok(())
        } else {
            Err(AppError::Database)
        }
    }

    fn list_by_project(&self, project_id: &str) -> (r: Result<Vec<Process>, AppError>) {
        Ok(self.table.children_of(project_id))
    }

    fn get(&self, id: &str) -> (r: Result<Option<Process>, AppError>) {
        Ok(self.table.get(id))
    }

    fn update(&mut self, process: &Process) -> (r: Result<bool, AppError>) {
        Ok(self.table.overwrite(process))
    }

    fn delete(&mut self, id: &str) -> (r: Result<bool, AppError>) {
        Ok(self.table.remove(id))
    }
}

} // verus!
