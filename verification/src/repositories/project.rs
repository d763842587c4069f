//! `ProjectRepository`: the persistence boundary for projects.

use crate::errors::AppError;
use crate::models::project::{Project, ProjectView};
use crate::repositories::order::{views, Stamped};
use crate::repositories::table::{
    has_key, is_row_with_key, lists, overwritten_rows, without_key, Record, Table,
};
use vstd::prelude::*;

verus! {

impl Stamped for Project {
    open spec fn stamp_of(v: ProjectView) -> i64 {
        v.updated_at
    }

    fn stamp(&self) -> (r: i64) {
        self.updated_at
    }
}

impl Record for Project {
    open spec fn key_of(v: ProjectView) -> Seq<char> {
        v.id
    }

    open spec fn parent_of(v: ProjectView) -> Seq<char> {
        Seq::empty()
    }

    /// An update writes name, description and `updated_at`; id and
    /// `created_at` stay.
    open spec fn overwritten(stored: ProjectView, incoming: ProjectView) -> ProjectView {
        ProjectView {
            name: incoming.name,
            description: incoming.description,
            updated_at: incoming.updated_at,
            ..stored
        }
    }

    fn key_is(&self, key: &String) -> (r: bool) {
        self.id == *key
    }

    fn parent_is(&self, parent: &String) -> (r: bool) {
        let empty = String::new();
        *parent == empty
    }

    fn key_string(&self) -> (r: String) {
        self.id.clone()
    }

    fn copy(&self) -> (r: Project) {
        self.duplicate()
    }

    fn overwrite(&self, incoming: &Project) -> (r: Project) {
        Project {
            id: self.id.clone(),
            name: incoming.name.clone(),
            description: incoming.description.clone(),
            created_at: self.created_at,
            updated_at: incoming.updated_at,
        }
    }
}

/// An update never adds or removes a project, and never changes a
/// project's id or creation time.
pub proof fn lemma_update_keeps_projects(rows: Seq<ProjectView>, incoming: ProjectView)
    ensures
        overwritten_rows::<Project>(rows, incoming).len() == rows.len(),
        forall|i: int|
            0 <= i < rows.len() ==> (#[trigger] overwritten_rows::<Project>(rows, incoming)[i]).id
                == rows[i].id && overwritten_rows::<Project>(rows, incoming)[i].created_at
                == rows[i].created_at,
{
}

/// Stored projects. `rows` is the stored projects in insertion order;
/// ids are unique because `create` refuses a taken id.
pub trait ProjectRepository {
    spec fn rows(&self) -> Seq<ProjectView>;

    /// Whether this store always answers: every call succeeds unless its
    /// contract says it is refused.
    spec fn reliable(&self) -> bool;

    /// Stores `project`; refused when its id is taken.
    fn create(&mut self, project: &Project) -> (r: Result<(), AppError>)
        ensures
            r is Ok ==> !has_key::<Project>(old(self).rows(), project.id@) && final(self).rows()
                == old(self).rows().push(project@),
            r is Err ==> final(self).rows() == old(self).rows(),
            r matches Err(e) ==> crate::errors::is_store_error(e),
            final(self).reliable() == old(self).reliable(),
            old(self).reliable() && !has_key::<Project>(old(self).rows(), project.id@) ==> r is Ok,
    ;

    /// Every project, most recently updated first.
    fn list(&self) -> (r: Result<Vec<Project>, AppError>)
        ensures
            r matches Ok(v) ==> lists::<Project>(views(v@), self.rows()),
            r matches Err(e) ==> crate::errors::is_store_error(e),
            self.reliable() ==> r is Ok,
    ;

    fn get(&self, id: &str) -> (r: Result<Option<Project>, AppError>)
        ensures
            r matches Ok(o) ==> match o {
                Some(p) => is_row_with_key::<Project>(self.rows(), id@, p@),
                None => !has_key::<Project>(self.rows(), id@),
            },
            r matches Err(e) ==> crate::errors::is_store_error(e),
            self.reliable() ==> r is Ok,
    ;

    /// Writes name, description and `updated_at` to the project with
    /// `project`'s id; whether one existed.
    fn update(&mut self, project: &Project) -> (r: Result<bool, AppError>)
        ensures
            match r {
                Ok(b) => b == has_key::<Project>(old(self).rows(), project.id@) && final(self).rows()
                    == overwritten_rows::<Project>(old(self).rows(), project@),
                Err(_) => final(self).rows() == old(self).rows(),
            },
            r matches Err(e) ==> crate::errors::is_store_error(e),
            final(self).reliable() == old(self).reliable(),
            old(self).reliable() ==> r is Ok,
    ;

    /// Removes the project with id `id`; whether one existed.
    fn delete(&mut self, id: &str) -> (r: Result<bool, AppError>)
        ensures
            match r {
                Ok(b) => b == has_key::<Project>(old(self).rows(), id@) && final(self).rows()
                    == without_key::<Project>(old(self).rows(), id@),
                Err(_) => final(self).rows() == old(self).rows(),
            },
            r matches Err(e) ==> crate::errors::is_store_error(e),
            final(self).reliable() == old(self).reliable(),
            old(self).reliable() ==> r is Ok,
    ;
}

/// Projects held in memory.
pub struct MemoryProjectRepository {
    table: Table<Project>,
}

impl MemoryProjectRepository {
    pub fn new() -> (r: Self)
        ensures
            r.reliable(),
            r.rows() == Seq::<ProjectView>::empty(),
    {
        MemoryProjectRepository { table: Table::new() }
    }

    /// Every stored project, most recently stamped first.
    pub fn all(&self) -> (r: Vec<Project>)
        ensures
            lists::<Project>(views(r@), self.rows()),
    {
        self.table.all()
    }
}

impl ProjectRepository for MemoryProjectRepository {
    closed spec fn rows(&self) -> Seq<ProjectView> {
        self.table.rows()
    }

    closed spec fn reliable(&self) -> bool {
        true
    }

    fn create(&mut self, project: &Project) -> (r: Result<(), AppError>) {
        if self.table.insert(project.duplicate()) {
            Ok(())
        } else {
            Err(AppError::Database)
        }
    }

    fn list(&self) -> (r: Result<Vec<Project>, AppError>) {
        Ok(self.table.all())
    }

    fn get(&self, id: &str) -> (r: Result<Option<Project>, AppError>) {
        Ok(self.table.get(id))
    }

    fn update(&mut self, project: &Project) -> (r: Result<bool, AppError>) {
        Ok(self.table.overwrite(project))
    }

    fn delete(&mut self, id: &str) -> (r: Result<bool, AppError>) {
        Ok(self.table.remove(id))
    }
}

} // verus!
