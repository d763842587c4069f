//! `ProjectService`: validation, id and timestamp generation for projects.

use crate::clock::now_ms;
use crate::errors::{is_store_error, AppError};
use crate::ids::{is_canonical_uuid, new_uuid};
use crate::models::project::{Project, ProjectView};
use crate::repositories::order::views;
use crate::repositories::project::ProjectRepository;
use crate::repositories::table::{
    has_key, holds_uuid_key, is_row_with_key, lists, overwritten_rows, without_key, lemma_without_absent_key,
};
use crate::text::{apply_text_rule, follows_rule, str_or_empty, text_or_empty, text_rule};
use vstd::prelude::*;

verus! {

/// Longest project name, in Unicode scalar values.
pub const MAX_NAME_LENGTH: usize = 200;

/// Longest description, in Unicode scalar values.
pub const MAX_DESCRIPTION_LENGTH: usize = 5000;

/// The rules of a project name: required, at most 200 characters, trimmed.
pub open spec fn project_name_rule(raw: Seq<char>) -> Result<Seq<char>, Seq<char>> {
    text_rule(
        raw,
        true,
        200,
        "Project name is required."@,
        "Project name must be 200 characters or fewer."@,
    )
}

/// The rules of a description: optional, at most 5000 characters, trimmed.
pub open spec fn description_rule(raw: Seq<char>) -> Result<Seq<char>, Seq<char>> {
    text_rule(raw, false, 5000, Seq::empty(), "Description must be 5000 characters or fewer."@)
}

pub fn validate_name(raw: &str) -> (r: Result<String, AppError>)
    ensures
        follows_rule(r, project_name_rule(raw@)),
{
    apply_text_rule(
        raw,
        true,
        MAX_NAME_LENGTH,
        "Project name is required.",
        "Project name must be 200 characters or fewer.",
    )
}

pub fn validate_description(raw: &str) -> (r: Result<String, AppError>)
    ensures
        follows_rule(r, description_rule(raw@)),
{
    proof {
        reveal_strlit("");
    }
    apply_text_rule(raw, false, MAX_DESCRIPTION_LENGTH, "", "Description must be 5000 characters or fewer.")
}

pub struct ProjectService<R: ProjectRepository> {
    repository: R,
}

impl<R: ProjectRepository> ProjectService<R> {
    /// The stored projects.
    pub closed spec fn rows(&self) -> Seq<ProjectView> {
        self.repository.rows()
    }

    /// Whether the underlying store always answers.
    pub closed spec fn reliable(&self) -> bool {
        self.repository.reliable()
    }

    pub fn new(repository: R) -> (s: Self)
        ensures
            s.rows() == repository.rows(),
            s.reliable() == repository.reliable(),
    {
        ProjectService { repository }
    }

    /// The repository the service was made of.
    pub fn into_repository(self) -> (r: R)
        ensures
            r.rows() == self.rows(),
            r.reliable() == self.reliable(),
    {
        self.repository
    }

    /// Trims and validates the name and description, generates the id and
    /// timestamps, and stores the new project.
    pub fn create(&mut self, name: &str, description: Option<&str>) -> (r: Result<Project, AppError>)
        ensures
            final(self).reliable() == old(self).reliable(),
            match (project_name_rule(name@), description_rule(text_or_empty(description))) {
                (Err(m), _) => r matches Err(e) && crate::errors::is_validation(e, m) && final(self).rows() == old(self).rows(),
                (Ok(_), Err(m)) => r matches Err(e) && crate::errors::is_validation(e, m) && final(self).rows() == old(self).rows(),
                (Ok(n), Ok(d)) => match r {
                    Ok(p) => {
                        &&& p.name@ == n
                        &&& p.description@ == d
                        &&& is_canonical_uuid(p.id@)
                        &&& p.created_at == p.updated_at
                        &&& !has_key::<Project>(old(self).rows(), p.id@)
                        &&& final(self).rows() == old(self).rows().push(p@)
                    },
                    Err(e) => is_store_error(e) && final(self).rows() == old(self).rows(),
                },
            },
            old(self).reliable() && project_name_rule(name@) is Ok && description_rule(
                text_or_empty(description),
            ) is Ok ==> (r is Ok || holds_uuid_key::<Project>(old(self).rows())),
    {
        let name = validate_name(name)?;
        let description = validate_description(str_or_empty(description))?;
        let now = now_ms();
        let project = Project {
            id: new_uuid(),
            name,
            description,
            created_at: now,
            updated_at: now,
        };
        match self.repository.create(&project) {
            Ok(()) => Ok(project),
            Err(e) => {
                assert(old(self).reliable() ==> has_key::<Project>(old(self).rows(), project.id@));
                Err(e)
            },
        }
    }

    /// Every project, most recently updated first.
    pub fn list(&self) -> (r: Result<Vec<Project>, AppError>)
        ensures
            match r {
                Ok(v) => lists::<Project>(views(v@), self.rows()),
                Err(e) => is_store_error(e),
            },
            self.reliable() ==> r is Ok,
    {
        self.repository.list()
    }

    /// The project with id `id`; `NotFound` when there is none.
    pub fn get(&self, id: &str) -> (r: Result<Project, AppError>)
        ensures
            match r {
                Ok(p) => is_row_with_key::<Project>(self.rows(), id@, p@),
                Err(e) => (e is NotFound && !has_key::<Project>(self.rows(), id@)) || is_store_error(e),
            },
            self.reliable() ==> (r is Ok <==> has_key::<Project>(self.rows(), id@)),
    {
        match self.repository.get(id)? {
            Some(p) => Ok(p),
            None => Err(AppError::NotFound),
        }
    }

    /// Trims and validates the name and description, checks the project
    /// exists, and stores the change with `updated_at` set to `now`; the id
    /// and `created_at` come from the stored project.
    pub fn update_at(&mut self, id: &str, name: &str, description: Option<&str>, now: i64) -> (r: Result<
        Project,
        AppError,
    >)
        ensures
            final(self).reliable() == old(self).reliable(),
            match (project_name_rule(name@), description_rule(text_or_empty(description))) {
                (Err(m), _) => r matches Err(e) && crate::errors::is_validation(e, m) && final(self).rows() == old(self).rows(),
                (Ok(_), Err(m)) => r matches Err(e) && crate::errors::is_validation(e, m) && final(self).rows() == old(self).rows(),
                (Ok(n), Ok(d)) => match r {
                    Ok(p) => {
                        &&& p.id@ == id@
                        &&& p.updated_at == now
                        &&& p.name@ == n
                        &&& p.description@ == d
                        &&& exists|old_p: ProjectView|
                            is_row_with_key::<Project>(old(self).rows(), id@, old_p)
                                && old_p.created_at == p.created_at
                        &&& final(self).rows() == overwritten_rows::<Project>(old(self).rows(), p@)
                    },
                    Err(e) => final(self).rows() == old(self).rows() && ((e is NotFound
                        && !has_key::<Project>(old(self).rows(), id@)) || is_store_error(e)),
                },
            },
            old(self).reliable() && project_name_rule(name@) is Ok && description_rule(
                text_or_empty(description),
            ) is Ok ==> (r is Ok <==> has_key::<Project>(old(self).rows(), id@)),
    {
        let name = validate_name(name)?;
        let description = validate_description(str_or_empty(description))?;
        let existing = self.get(id)?;
        let project = Project {
            id: existing.id,
            name,
            description,
            created_at: existing.created_at,
            updated_at: now,
        };
        if self.repository.update(&project)? {
            Ok(project)
        } else {
            Err(AppError::NotFound)
        }
    }

    /// Trims and validates the name and description, checks the project
    /// exists, and stores the change with a fresh `updated_at`; the id
    /// and `created_at` come from the stored project.
    pub fn update(&mut self, id: &str, name: &str, description: Option<&str>) -> (r: Result<
        Project,
        AppError,
    >)
        ensures
            final(self).reliable() == old(self).reliable(),
            match (project_name_rule(name@), description_rule(text_or_empty(description))) {
                (Err(m), _) => r matches Err(e) && crate::errors::is_validation(e, m) && final(self).rows() == old(self).rows(),
                (Ok(_), Err(m)) => r matches Err(e) && crate::errors::is_validation(e, m) && final(self).rows() == old(self).rows(),
                (Ok(n), Ok(d)) => match r {
                    Ok(p) => {
                        &&& p.id@ == id@
                        &&& p.name@ == n
                        &&& p.description@ == d
                        &&& exists|old_p: ProjectView|
                            is_row_with_key::<Project>(old(self).rows(), id@, old_p)
                                && old_p.created_at == p.created_at
                        &&& final(self).rows() == overwritten_rows::<Project>(old(self).rows(), p@)
                    },
                    Err(e) => final(self).rows() == old(self).rows() && ((e is NotFound
                        && !has_key::<Project>(old(self).rows(), id@)) || is_store_error(e)),
                },
            },
            old(self).reliable() && project_name_rule(name@) is Ok && description_rule(
                text_or_empty(description),
            ) is Ok ==> (r is Ok <==> has_key::<Project>(old(self).rows(), id@)),
    {
        self.update_at(id, name, description, now_ms())
    }

    /// Removes the project with id `id`; `NotFound` when there is none.
    pub fn delete(&mut self, id: &str) -> (r: Result<(), AppError>)
        ensures
            final(self).reliable() == old(self).reliable(),
            r is Ok ==> has_key::<Project>(old(self).rows(), id@),
            r is Ok ==> final(self).rows() =~= without_key::<Project>(old(self).rows(), id@),
            r matches Err(e) ==> final(self).rows() == old(self).rows() && ((e is NotFound
                && !has_key::<Project>(old(self).rows(), id@)) || is_store_error(e)),
            old(self).reliable() ==> (r is Ok <==> has_key::<Project>(old(self).rows(), id@)),
    {
        if self.repository.delete(id)? {
            Ok(())
        } else {
            proof {
                lemma_without_absent_key::<Project>(old(self).rows(), id@);
            }
            Err(AppError::NotFound)
        }
    }
}

} // verus!
