//! `ProcessService`: validation, id and timestamp generation, project
//! existence and status parsing for processes.

use crate::clock::now_ms;
use crate::errors::{is_store_error, is_validation, AppError};
use crate::ids::{is_canonical_uuid, new_uuid};
use crate::models::process::{status_of_text, Process, ProcessStatus, ProcessView};
use crate::repositories::order::views;
use crate::repositories::process::ProcessRepository;
use crate::repositories::project::ProjectRepository;
use crate::repositories::table::{
    holds_uuid_key,
    children, has_key, is_row_with_key, lemma_without_absent_key, lists, overwritten_rows,
    without_key,
};
use crate::models::project::{Project, ProjectView};
use crate::services::project::description_rule;
use crate::text::{apply_text_rule, follows_rule, str_or_empty, text_or_empty, text_rule};
use vstd::prelude::*;

verus! {

/// Longest process name, in Unicode scalar values.
pub const MAX_NAME_LENGTH: usize = 200;

/// Longest description, in Unicode scalar values.
pub const MAX_DESCRIPTION_LENGTH: usize = 5000;

/// The rules of a process name: required, at most 200 characters, trimmed.
pub open spec fn process_name_rule(raw: Seq<char>) -> Result<Seq<char>, Seq<char>> {
    text_rule(
        raw,
        true,
        200,
        "Process name is required."@,
        "Process name must be 200 characters or fewer."@,
    )
}

/// The message of an unknown status.
pub open spec fn invalid_status_message() -> Seq<char> {
    "Invalid process status."@
}

pub fn validate_name(raw: &str) -> (r: Result<String, AppError>)
    ensures
        follows_rule(r, process_name_rule(raw@)),
{
    apply_text_rule(
        raw,
        true,
        MAX_NAME_LENGTH,
        "Process name is required.",
        "Process name must be 200 characters or fewer.",
    )
}

pub fn validate_description(raw: &str) -> (r: Result<String, AppError>)
    ensures
        follows_rule(r, description_rule(raw@)),
{
    crate::services::project::validate_description(raw)
}

pub struct ProcessService<R: ProcessRepository, P: ProjectRepository> {
    repository: R,
    projects: P,
}

impl<R: ProcessRepository, P: ProjectRepository> ProcessService<R, P> {
    /// The stored processes.
    pub closed spec fn rows(&self) -> Seq<ProcessView> {
        self.repository.rows()
    }

    /// The stored projects the service checks parents against.
    pub closed spec fn project_rows(&self) -> Seq<ProjectView> {
        self.projects.rows()
    }

    /// Whether both underlying stores always answer.
    pub closed spec fn reliable(&self) -> bool {
        self.repository.reliable() && self.projects.reliable()
    }

    pub fn new(repository: R, projects: P) -> (s: Self)
        ensures
            s.rows() == repository.rows(),
            s.project_rows() == projects.rows(),
            s.reliable() == (repository.reliable() && projects.reliable()),
    {
        ProcessService { repository, projects }
    }

    /// The repositories the service was made of.
    pub fn into_parts(self) -> (r: (R, P))
        ensures
            r.0.rows() == self.rows(),
            r.1.rows() == self.project_rows(),
            self.reliable() == (r.0.reliable() && r.1.reliable()),
    {
        (self.repository, self.projects)
    }

    /// Trims and validates the name and description, confirms the project
    /// exists, generates the id and timestamps, and stores the new process
    /// as a draft.
    pub fn create(&mut self, project_id: &str, name: &str, description: Option<&str>) -> (r:
        Result<Process, AppError>)
        ensures
            final(self).reliable() == old(self).reliable(),
            final(self).project_rows() == old(self).project_rows(),
            r is Err ==> final(self).rows() == old(self).rows(),
            match (process_name_rule(name@), description_rule(text_or_empty(description))) {
                (Err(m), _) => r matches Err(e) && is_validation(e, m),
                (Ok(_), Err(m)) => r matches Err(e) && is_validation(e, m),
                (Ok(n), Ok(d)) => match r {
                    Ok(p) => {
                        &&& has_key::<Project>(old(self).project_rows(), project_id@)
                        &&& p.project_id@ == project_id@
                        &&& p.name@ == n
                        &&& p.description@ == d
                        &&& p.status == ProcessStatus::Draft
                        &&& is_canonical_uuid(p.id@)
                        &&& p.created_at == p.updated_at
                        &&& !has_key::<Process>(old(self).rows(), p.id@)
                        &&& final(self).rows() == old(self).rows().push(p@)
                    },
                    Err(e) => (e is NotFound && !has_key::<Project>(
                        old(self).project_rows(),
                        project_id@,
                    )) || is_store_error(e),
                },
            },
            old(self).reliable() && process_name_rule(name@) is Ok && description_rule(
                text_or_empty(description),
            ) is Ok && !has_key::<Project>(old(self).project_rows(), project_id@) ==> (r matches Err(
                e,
            ) && e is NotFound),
            old(self).reliable() && process_name_rule(name@) is Ok && description_rule(
                text_or_empty(description),
            ) is Ok && has_key::<Project>(old(self).project_rows(), project_id@) ==> (r is Ok
                || holds_uuid_key::<Process>(old(self).rows())),
    {
        let name = validate_name(name)?;
        let description = validate_description(str_or_empty(description))?;
        match self.projects.get(project_id)? {
            Some(_) => {},
            None => return Err(AppError::NotFound),
        }
        let now = now_ms();
        let process = Process {
            id: new_uuid(),
            project_id: project_id.to_string(),
            name,
            description,
            status: ProcessStatus::Draft,
            created_at: now,
            updated_at: now,
        };
        match self.repository.create(&process) {
            Ok(()) => Ok(process),
            Err(e) => {
                assert(old(self).reliable() ==> has_key::<Process>(old(self).rows(), process.id@));
                Err(e)
            },
        }
    }

    /// The processes of `project_id`, most recently updated first.
    pub fn list_by_project(&self, project_id: &str) -> (r: Result<Vec<Process>, AppError>)
        ensures
            match r {
                Ok(v) => lists::<Process>(views(v@), children::<Process>(self.rows(), project_id@)),
                Err(e) => is_store_error(e),
            },
            self.reliable() ==> r is Ok,
    {
        self.repository.list_by_project(project_id)
    }

    /// The process with id `id`; `NotFound` when there is none.
    pub fn get(&self, id: &str) -> (r: Result<Process, AppError>)
        ensures
            match r {
                Ok(p) => is_row_with_key::<Process>(self.rows(), id@, p@),
                Err(e) => (e is NotFound && !has_key::<Process>(self.rows(), id@)) || is_store_error(e),
            },
            self.reliable() ==> (r is Ok <==> has_key::<Process>(self.rows(), id@)),
    {
        match self.repository.get(id)? {
            Some(p) => Ok(p),
            None => Err(AppError::NotFound),
        }
    }

    /// Trims and validates the name and description, parses the status,
    /// checks the process exists, and stores the change with `updated_at` set to
    /// `now`; id, project and `created_at` come from the stored
    /// process.
    pub fn update_at(
        &mut self,
        id: &str,
        name: &str,
        description: Option<&str>,
        status: &str,
        now: i64,
    ) -> (r: Result<Process, AppError>)
        ensures
            final(self).reliable() == old(self).reliable(),
            final(self).project_rows() == old(self).project_rows(),
            r is Err ==> final(self).rows() == old(self).rows(),
            match (
                process_name_rule(name@),
                description_rule(text_or_empty(description)),
                status_of_text(status@),
            ) {
                (Err(m), _, _) => r matches Err(e) && is_validation(e, m),
                (Ok(_), Err(m), _) => r matches Err(e) && is_validation(e, m),
                (Ok(_), Ok(_), None) => r matches Err(e) && is_validation(
                    e,
                    invalid_status_message(),
                ),
                (Ok(n), Ok(d), Some(s)) => match r {
                    Ok(p) => {
                        &&& p.id@ == id@
                        &&& p.updated_at == now
                        &&& p.name@ == n
                        &&& p.description@ == d
                        &&& p.status == s
                        &&& exists|old_p: ProcessView|
                            is_row_with_key::<Process>(old(self).rows(), id@, old_p)
                                && old_p.created_at == p.created_at && old_p.project_id
                                == p.project_id@
                        &&& final(self).rows() == overwritten_rows::<Process>(old(self).rows(), p@)
                    },
                    Err(e) => (e is NotFound && !has_key::<Process>(old(self).rows(), id@))
                        || is_store_error(e),
                },
            },
            old(self).reliable() && process_name_rule(name@) is Ok && description_rule(
                text_or_empty(description),
            ) is Ok && status_of_text(status@) is Some ==> (r is Ok <==> has_key::<Process>(
                old(self).rows(),
                id@,
            )),
    {
        let name = validate_name(name)?;
        let description = validate_description(str_or_empty(description))?;
        let status = match ProcessStatus::parse(status) {
            Some(s) => s,
            None => return Err(AppError::validation("Invalid process status.")),
        };
        let existing = self.get(id)?;
        let process = Process {
            id: existing.id,
            project_id: existing.project_id,
            name,
            description,
            status,
            created_at: existing.created_at,
            updated_at: now,
        };
        if self.repository.update(&process)? {
            Ok(process)
        } else {
            Err(AppError::NotFound)
        }
    }

    /// Trims and validates the name and description, parses the status,
    /// checks the process exists, and stores the change with a fresh
    /// `updated_at`; id, project and `created_at` come from the stored
    /// process.
    pub fn update(
        &mut self,
        id: &str,
        name: &str,
        description: Option<&str>,
        status: &str,
    ) -> (r: Result<Process, AppError>)
        ensures
            final(self).reliable() == old(self).reliable(),
            final(self).project_rows() == old(self).project_rows(),
            r is Err ==> final(self).rows() == old(self).rows(),
            match (
                process_name_rule(name@),
                description_rule(text_or_empty(description)),
                status_of_text(status@),
            ) {
                (Err(m), _, _) => r matches Err(e) && is_validation(e, m),
                (Ok(_), Err(m), _) => r matches Err(e) && is_validation(e, m),
                (Ok(_), Ok(_), None) => r matches Err(e) && is_validation(
                    e,
                    invalid_status_message(),
                ),
                (Ok(n), Ok(d), Some(s)) => match r {
                    Ok(p) => {
                        &&& p.id@ == id@
                        &&& p.name@ == n
                        &&& p.description@ == d
                        &&& p.status == s
                        &&& exists|old_p: ProcessView|
                            is_row_with_key::<Process>(old(self).rows(), id@, old_p)
                                && old_p.created_at == p.created_at && old_p.project_id
                                == p.project_id@
                        &&& final(self).rows() == overwritten_rows::<Process>(old(self).rows(), p@)
                    },
                    Err(e) => (e is NotFound && !has_key::<Process>(old(self).rows(), id@))
                        || is_store_error(e),
                },
            },
            old(self).reliable() && process_name_rule(name@) is Ok && description_rule(
                text_or_empty(description),
            ) is Ok && status_of_text(status@) is Some ==> (r is Ok <==> has_key::<Process>(
                old(self).rows(),
                id@,
            )),
    {
        self.update_at(id, name, description, status, now_ms())
    }

    /// Removes the process with id `id`; `NotFound` when there is none.
    pub fn delete(&mut self, id: &str) -> (r: Result<(), AppError>)
        ensures
            final(self).reliable() == old(self).reliable(),
            final(self).project_rows() == old(self).project_rows(),
            r is Ok ==> has_key::<Process>(old(self).rows(), id@),
            r is Ok ==> final(self).rows() == without_key::<Process>(old(self).rows(), id@),
            r matches Err(e) ==> final(self).rows() == old(self).rows() && ((e is NotFound
                && !has_key::<Process>(old(self).rows(), id@)) || is_store_error(e)),
            old(self).reliable() ==> (r is Ok <==> has_key::<Process>(old(self).rows(), id@)),
    {
        if self.repository.delete(id)? {
            Ok(())
        } else {
            proof {
                lemma_without_absent_key::<Process>(old(self).rows(), id@);
            }
            Err(AppError::NotFound)
        }
    }
}

} // verus!
