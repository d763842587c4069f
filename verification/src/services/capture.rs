//! `CaptureService`: validation, id and timestamp generation, process
//! existence, and the orchestration of capture media (screenshots taken
//! and stored, recordings finalized, media removed with its capture and
//! swept when orphaned).

use crate::clock::now_ms;
use crate::errors::{is_store_error, is_validation, AppError};
use crate::ids::{is_canonical_uuid, new_uuid, uuid_parses, uuid_text_accepted};
use crate::media::{is_orphan, mp4_name, png_name, texts, MediaFiles, MediaStorage};
use crate::models::capture::{capture_type_of_text, Capture, CaptureType, CaptureView};
use crate::models::process::{Process, ProcessView};
use crate::native::screenshot::ScreenshotEngine;
use crate::repositories::capture::{capture_ids, CaptureRepository};
use crate::repositories::order::views;
use crate::repositories::process::ProcessRepository;
use crate::repositories::table::{
    holds_uuid_key,
    children, has_key, is_row_with_key, lemma_without_absent_key, lists, overwritten_rows,
    without_key,
};
use crate::services::project::description_rule;
use crate::text::{apply_text_rule, follows_rule, str_or_empty, text_or_empty, text_rule};
use vstd::prelude::*;

verus! {

/// Longest capture title, in Unicode scalar values.
pub const MAX_TITLE_LENGTH: usize = 200;

/// Longest description, in Unicode scalar values.
pub const MAX_DESCRIPTION_LENGTH: usize = 5000;

/// The rules of a capture title: required, at most 200 characters, trimmed.
pub open spec fn capture_title_rule(raw: Seq<char>) -> Result<Seq<char>, Seq<char>> {
    text_rule(
        raw,
        true,
        200,
        "Capture title is required."@,
        "Capture title must be 200 characters or fewer."@,
    )
}

/// The message of an unknown capture type.
pub open spec fn invalid_type_message() -> Seq<char> {
    "Invalid capture type."@
}

/// The message of a recording that left no video file behind.
pub open spec fn no_video_message() -> Seq<char> {
    "The recording finished but produced no video file."@
}

/// The outcome the shared creation checks prescribe: the trimmed title
/// and description, or the message of the first rule broken.
pub open spec fn creation_texts(title: Seq<char>, description: Seq<char>) -> Result<
    (Seq<char>, Seq<char>),
    Seq<char>,
> {
    match (capture_title_rule(title), description_rule(description)) {
        (Err(m), _) => Err(m),
        (Ok(_), Err(m)) => Err(m),
        (Ok(t), Ok(d)) => Ok((t, d)),
    }
}

/// `files` gained no file that `before` did not have.
pub open spec fn no_new_files(before: Map<Seq<char>, Seq<u8>>, after: Map<Seq<char>, Seq<u8>>) -> bool {
    forall|n: Seq<char>| #[trigger] after.contains_key(n) ==> before.contains_key(n)
}

/// Sequences with the same elements, counted, have the same elements.
proof fn lemma_same_multiset_same_set<A>(a: Seq<A>, b: Seq<A>)
    requires
        a.to_multiset() == b.to_multiset(),
    ensures
        a.to_set() == b.to_set(),
{
    broadcast use vstd::seq_lib::group_to_multiset_ensures;

    assert forall|x: A| a.to_set().contains(x) <==> b.to_set().contains(x) by {
        assert(a.contains(x) <==> a.to_multiset().count(x) > 0);
        assert(b.contains(x) <==> b.to_multiset().count(x) > 0);
    }
    assert(a.to_set() =~= b.to_set());
}

pub fn validate_title(raw: &str) -> (r: Result<String, AppError>)
    ensures
        follows_rule(r, capture_title_rule(raw@)),
{
    apply_text_rule(
        raw,
        true,
        MAX_TITLE_LENGTH,
        "Capture title is required.",
        "Capture title must be 200 characters or fewer.",
    )
}

pub fn validate_description(raw: &str) -> (r: Result<String, AppError>)
    ensures
        follows_rule(r, description_rule(raw@)),
{
    crate::services::project::validate_description(raw)
}

pub struct CaptureService<
    R: CaptureRepository,
    P: ProcessRepository,
    F: MediaFiles,
    S: ScreenshotEngine,
> {
    repository: R,
    processes: P,
    media: MediaStorage<F>,
    screenshot_engine: S,
}

impl<R: CaptureRepository, P: ProcessRepository, F: MediaFiles, S: ScreenshotEngine> CaptureService<
    R,
    P,
    F,
    S,
> {
    /// The stored captures.
    pub closed spec fn rows(&self) -> Seq<CaptureView> {
        self.repository.rows()
    }

    /// The stored processes captures are checked against.
    pub closed spec fn process_rows(&self) -> Seq<ProcessView> {
        self.processes.rows()
    }

    /// The media files, by name.
    pub closed spec fn files(&self) -> Map<Seq<char>, Seq<u8>> {
        self.media.files()
    }

    /// Whether both record stores always answer.
    pub closed spec fn stores_reliable(&self) -> bool {
        self.repository.reliable() && self.processes.reliable()
    }

    /// Whether every media operation succeeds.
    pub closed spec fn media_reliable(&self) -> bool {
        self.media.reliable()
    }

    /// Whether the media directory can be listed.
    pub closed spec fn media_listable(&self) -> bool {
        self.media.listable()
    }

    /// The engine screenshots are taken with.
    pub closed spec fn engine(&self) -> S {
        self.screenshot_engine
    }

    pub fn new(repository: R, processes: P, media: MediaStorage<F>, screenshot_engine: S) -> (s:
        Self)
        ensures
            s.rows() == repository.rows(),
            s.process_rows() == processes.rows(),
            s.files() == media.files(),
            s.stores_reliable() == (repository.reliable() && processes.reliable()),
            s.media_reliable() == media.reliable(),
            s.media_listable() == media.listable(),
            s.engine() == screenshot_engine,
    {
        CaptureService { repository, processes, media, screenshot_engine }
    }

    /// The parts the service was made of.
    pub fn into_parts(self) -> (r: (R, P, MediaStorage<F>, S))
        ensures
            r.0.rows() == self.rows(),
            r.1.rows() == self.process_rows(),
            r.2.files() == self.files(),
            self.stores_reliable() == (r.0.reliable() && r.1.reliable()),
            self.media_reliable() == r.2.reliable(),
    {
        (self.repository, self.processes, self.media, self.screenshot_engine)
    }

    /// The media storage.
    pub fn media(&self) -> (r: &MediaStorage<F>)
        ensures
            r.files() == self.files(),
            r.reliable() == self.media_reliable(),
    {
        &self.media
    }

    /// The checks every way of creating a capture shares: the trimmed
    /// title and description, once the process is known to exist.
    fn validate_for_create(&self, process_id: &str, title: &str, description: Option<&str>) -> (r:
        Result<(String, String), AppError>)
        ensures
            match creation_texts(title@, text_or_empty(description)) {
                Err(m) => r matches Err(e) && is_validation(e, m),
                Ok((t, d)) => match r {
                    Ok((rt, rd)) => rt@ == t && rd@ == d && has_key::<Process>(
                        self.process_rows(),
                        process_id@,
                    ),
                    Err(e) => (e is NotFound && !has_key::<Process>(
                        self.process_rows(),
                        process_id@,
                    )) || is_store_error(e),
                },
            },
            self.stores_reliable() && creation_texts(title@, text_or_empty(description)) is Ok ==> (r is Ok
                <==> has_key::<Process>(self.process_rows(), process_id@)),
            self.stores_reliable() ==> (r matches Err(e) ==> !is_store_error(e)),
    {
        let title = validate_title(title)?;
        let description = validate_description(str_or_empty(description))?;
        match self.processes.get(process_id)? {
            Some(_) => Ok((title, description)),
            None => Err(AppError::NotFound),
        }
    }

    /// Checks a request to start a recording against the rules of
    /// creating a capture, before any recording starts; gives the
    /// trimmed title and description to carry to `finalize_recording`.
    pub fn validate_recording_start(
        &self,
        process_id: &str,
        title: &str,
        description: Option<&str>,
    ) -> (r: Result<(String, String), AppError>)
        ensures
            match creation_texts(title@, text_or_empty(description)) {
                Err(m) => r matches Err(e) && is_validation(e, m),
                Ok((t, d)) => match r {
                    Ok((rt, rd)) => rt@ == t && rd@ == d && has_key::<Process>(
                        self.process_rows(),
                        process_id@,
                    ),
                    Err(e) => (e is NotFound && !has_key::<Process>(
                        self.process_rows(),
                        process_id@,
                    )) || is_store_error(e),
                },
            },
            self.stores_reliable() && creation_texts(title@, text_or_empty(description)) is Ok ==> (r is Ok
                <==> has_key::<Process>(self.process_rows(), process_id@)),
            self.stores_reliable() ==> (r matches Err(e) ==> !is_store_error(e)),
    {
        self.validate_for_create(process_id, title, description)
    }

    /// Creates a capture record of any type, without media: the shared
    /// checks, then the type, then a fresh id and timestamps.
    pub fn create(
        &mut self,
        process_id: &str,
        capture_type: &str,
        title: &str,
        description: Option<&str>,
    ) -> (r: Result<Capture, AppError>)
        ensures
            final(self).stores_reliable() == old(self).stores_reliable(),
            final(self).media_reliable() == old(self).media_reliable(),
            final(self).process_rows() == old(self).process_rows(),
            final(self).files() == old(self).files(),
            r is Err ==> final(self).rows() == old(self).rows(),
            match creation_texts(title@, text_or_empty(description)) {
                Err(m) => r matches Err(e) && is_validation(e, m),
                Ok((t, d)) => match r {
                    Ok(c) => {
                        &&& has_key::<Process>(old(self).process_rows(), process_id@)
                        &&& capture_type_of_text(capture_type@) == Some(c.capture_type)
                        &&& c.process_id@ == process_id@
                        &&& c.title@ == t
                        &&& c.description@ == d
                        &&& is_canonical_uuid(c.id@)
                        &&& c.created_at == c.updated_at
                        &&& !has_key::<Capture>(old(self).rows(), c.id@)
                        &&& final(self).rows() == old(self).rows().push(c@)
                    },
                    Err(e) => (e is NotFound && !has_key::<Process>(
                        old(self).process_rows(),
                        process_id@,
                    )) || (is_validation(e, invalid_type_message()) && has_key::<Process>(
                        old(self).process_rows(),
                        process_id@,
                    ) && capture_type_of_text(capture_type@) is None) || is_store_error(e),
                },
            },
            old(self).stores_reliable() && creation_texts(title@, text_or_empty(description)) is Ok ==> (
            !has_key::<Process>(old(self).process_rows(), process_id@) ==> (r matches Err(e)
                && e is NotFound)) && (has_key::<Process>(old(self).process_rows(), process_id@)
                && capture_type_of_text(capture_type@) is None ==> (r matches Err(e)
                && is_validation(e, invalid_type_message()))),
            old(self).stores_reliable() && creation_texts(title@, text_or_empty(description)) is Ok
                && has_key::<Process>(old(self).process_rows(), process_id@) && capture_type_of_text(
                capture_type@,
            ) is Some ==> (r is Ok || holds_uuid_key::<Capture>(old(self).rows())),
    {
        let (title, description) = self.validate_for_create(process_id, title, description)?;
        let capture_type = match CaptureType::parse(capture_type) {
            Some(t) => t,
            None => return Err(AppError::validation("Invalid capture type.")),
        };
        let now = now_ms();
        let capture = Capture {
            id: new_uuid(),
            process_id: process_id.to_string(),
            capture_type,
            title,
            description,
            created_at: now,
            updated_at: now,
        };
        match self.repository.create(&capture) {
            Ok(()) => Ok(capture),
            Err(e) => {
                assert(old(self).stores_reliable() ==> has_key::<Capture>(old(self).rows(), capture.id@));
                Err(e)
            },
        }
    }

    /// Takes a screenshot of the primary display, stores it under a fresh
    /// id, then creates its capture record. Nothing exists before the
    /// screen is captured; when the record cannot be created, the stored
    /// screenshot is removed again, so no media is left without a record.
    pub fn create_screenshot(&mut self, process_id: &str, title: &str, description: Option<&str>) -> (r:
        Result<Capture, AppError>)
        ensures
            final(self).stores_reliable() == old(self).stores_reliable(),
            final(self).media_reliable() == old(self).media_reliable(),
            final(self).process_rows() == old(self).process_rows(),
            r is Err ==> final(self).rows() == old(self).rows(),
            r is Err && old(self).media_reliable() ==> no_new_files(
                old(self).files(),
                final(self).files(),
            ),
            match creation_texts(title@, text_or_empty(description)) {
                Err(m) => r matches Err(e) && is_validation(e, m) && final(self).files() == old(self).files(),
                Ok((t, d)) => match r {
                    Ok(c) => {
                        &&& has_key::<Process>(old(self).process_rows(), process_id@)
                        &&& c.capture_type == CaptureType::Screenshot
                        &&& c.process_id@ == process_id@
                        &&& c.title@ == t
                        &&& c.description@ == d
                        &&& is_canonical_uuid(c.id@)
                        &&& c.created_at == c.updated_at
                        &&& !has_key::<Capture>(old(self).rows(), c.id@)
                        &&& final(self).rows() == old(self).rows().push(c@)
                        &&& final(self).files().contains_key(png_name(c.id@))
                        &&& final(self).files() == old(self).files().insert(
                            png_name(c.id@),
                            final(self).files()[png_name(c.id@)],
                        )
                        &&& exists|shot: Vec<u8>|
                            #[trigger] call_ensures(
                                S::capture_primary_display,
                                (&old(self).engine(),),
                                Ok::<Vec<u8>, AppError>(shot),
                            ) && final(self).files()[png_name(c.id@)] == shot@
                    },
                    Err(e) => is_store_error(e) || (e is NotFound && !has_key::<Process>(
                        old(self).process_rows(),
                        process_id@,
                    )) || call_ensures(
                        S::capture_primary_display,
                        (&old(self).engine(),),
                        Err::<Vec<u8>, AppError>(e),
                    ),
                },
            },
            old(self).stores_reliable() && creation_texts(title@, text_or_empty(description)) is Ok
                && !has_key::<Process>(old(self).process_rows(), process_id@) ==> (r matches Err(e)
                && e is NotFound && final(self).files() == old(self).files()),
    {
        let (title, description) = self.validate_for_create(process_id, title, description)?;
        let shot = self.screenshot_engine.capture_primary_display();
        let ghost outcome = shot;
        let png_bytes = match shot {
            Ok(b) => b,
            Err(e) => return Err(e),
        };
        let r = self.store_screenshot(process_id, title.as_str(), description.as_str(), png_bytes.as_slice());
        proof {
            if let Ok(c) = &r {
                assert(call_ensures(
                    S::capture_primary_display,
                    (&old(self).engine(),),
                    Ok::<Vec<u8>, AppError>(png_bytes),
                ));
                assert(self.files()[png_name(c.id@)] == png_bytes@);
            }
        }
        r
    }

    /// Stores `png_bytes`, a screenshot just taken, under a fresh id, then
    /// creates its capture record with the title and description as
    /// given (they were checked before the screen was captured). When the
    /// record cannot be created, the stored screenshot is removed again.
    pub fn store_screenshot(
        &mut self,
        process_id: &str,
        title: &str,
        description: &str,
        png_bytes: &[u8],
    ) -> (r: Result<Capture, AppError>)
        ensures
            final(self).stores_reliable() == old(self).stores_reliable(),
            final(self).media_reliable() == old(self).media_reliable(),
            final(self).process_rows() == old(self).process_rows(),
            match r {
                Ok(c) => {
                    &&& c.capture_type == CaptureType::Screenshot
                    &&& c.process_id@ == process_id@
                    &&& c.title@ == title@
                    &&& c.description@ == description@
                    &&& is_canonical_uuid(c.id@)
                    &&& c.created_at == c.updated_at
                    &&& !has_key::<Capture>(old(self).rows(), c.id@)
                    &&& final(self).rows() == old(self).rows().push(c@)
                    &&& final(self).files() == old(self).files().insert(png_name(c.id@), png_bytes@)
                },
                Err(e) => {
                    &&& is_store_error(e)
                    &&& final(self).rows() == old(self).rows()
                    &&& old(self).media_reliable() ==> no_new_files(old(self).files(), final(self).files())
                },
            },
            old(self).stores_reliable() && old(self).media_reliable() ==> (r is Ok || holds_uuid_key::<
                Capture,
            >(old(self).rows())),
    {
        let id = new_uuid();
        proof {
            crate::ids::lemma_canonical_is_accepted(id@);
        }
        self.media.save_capture(id.as_str(), png_bytes)?;
        let now = now_ms();
        let capture = Capture {
            id: id.clone(),
            process_id: process_id.to_string(),
            capture_type: CaptureType::Screenshot,
            title: title.to_string(),
            description: description.to_string(),
            created_at: now,
            updated_at: now,
        };
        match self.repository.create(&capture) {
            Ok(()) => Ok(capture),
            Err(err) => {
                assert(old(self).stores_reliable() ==> has_key::<Capture>(old(self).rows(), capture.id@));
                let _ = self.media.delete_capture(id.as_str());
                Err(err)
            },
        }
    }

    /// Creates the record of a recording that has just stopped, under the
    /// id its video file was written with; refused when no video file
    /// exists. The title and description are stored as given (they were
    /// checked when the recording started). When the record cannot be
    /// created, the video file is removed, so no video is left without a
    /// record.
    pub fn finalize_recording(
        &mut self,
        id: &str,
        process_id: &str,
        title: &str,
        description: &str,
    ) -> (r: Result<Capture, AppError>)
        ensures
            final(self).stores_reliable() == old(self).stores_reliable(),
            final(self).media_reliable() == old(self).media_reliable(),
            final(self).process_rows() == old(self).process_rows(),
            r is Err ==> final(self).rows() == old(self).rows(),
            !(uuid_text_accepted(id@) && old(self).files().contains_key(mp4_name(id@))) ==> (r matches Err(
                e,
            ) && e matches AppError::Capture(m) && m@ == no_video_message() && final(self).files()
                == old(self).files()),
            match r {
                Ok(c) => {
                    &&& uuid_text_accepted(id@)
                    &&& old(self).files().contains_key(mp4_name(id@))
                    &&& c.id@ == id@
                    &&& c.process_id@ == process_id@
                    &&& c.capture_type == CaptureType::Recording
                    &&& c.title@ == title@
                    &&& c.description@ == description@
                    &&& c.created_at == c.updated_at
                    &&& !has_key::<Capture>(old(self).rows(), id@)
                    &&& final(self).rows() == old(self).rows().push(c@)
                    &&& final(self).files() == old(self).files()
                },
                Err(e) => old(self).media_reliable() ==> no_new_files(
                    old(self).files(),
                    final(self).files(),
                ),
            },
            r is Err && old(self).media_reliable() && uuid_text_accepted(id@) ==> final(self).files()
                == old(self).files().remove(mp4_name(id@)),
            old(self).stores_reliable() && uuid_text_accepted(id@) && old(self).files().contains_key(
                mp4_name(id@),
            ) && !has_key::<Capture>(old(self).rows(), id@) ==> r is Ok,
    {
        if !self.media.video_exists(id) {
            proof {
                if uuid_text_accepted(id@) {
                    assert(self.files().remove(mp4_name(id@)) =~= self.files());
                }
            }
            return Err(AppError::Capture(String::from_str("The recording finished but produced no video file.")));
        }
        let now = now_ms();
        let capture = Capture {
            id: id.to_string(),
            process_id: process_id.to_string(),
            capture_type: CaptureType::Recording,
            title: title.to_string(),
            description: description.to_string(),
            created_at: now,
            updated_at: now,
        };
        match self.repository.create(&capture) {
            Ok(()) => Ok(capture),
            Err(err) => {
                let _ = self.media.delete_video(id);
                Err(err)
            },
        }
    }

    /// The captures of `process_id`, most recently updated first.
    pub fn list_by_process(&self, process_id: &str) -> (r: Result<Vec<Capture>, AppError>)
        ensures
            match r {
                Ok(v) => lists::<Capture>(views(v@), children::<Capture>(self.rows(), process_id@)),
                Err(e) => is_store_error(e),
            },
            self.stores_reliable() ==> r is Ok,
    {
        self.repository.list_by_process(process_id)
    }

    /// The capture with id `id`; `NotFound` when there is none.
    pub fn get(&self, id: &str) -> (r: Result<Capture, AppError>)
        ensures
            match r {
                Ok(c) => is_row_with_key::<Capture>(self.rows(), id@, c@),
                Err(e) => (e is NotFound && !has_key::<Capture>(self.rows(), id@)) || is_store_error(e),
            },
            self.stores_reliable() ==> (r is Ok <==> has_key::<Capture>(self.rows(), id@)),
    {
        match self.repository.get(id)? {
            Some(c) => Ok(c),
            None => Err(AppError::NotFound),
        }
    }

    /// The screenshot file of capture `id`, whatever the capture's type now
    /// is; `NotFound` when no capture has that id or it has no such file.
    pub fn get_screenshot_media(&self, id: &str) -> (r: Result<Vec<u8>, AppError>)
        ensures
            match r {
                Ok(b) => has_key::<Capture>(self.rows(), id@) && uuid_text_accepted(id@)
                    && self.files().contains_key(png_name(id@)) && self.files()[png_name(id@)] == b@,
                Err(e) => (e is NotFound && !(has_key::<Capture>(self.rows(), id@) && uuid_text_accepted(
                    id@,
                ) && self.files().contains_key(png_name(id@)))) || (is_store_error(e)
                    && !self.stores_reliable()) || (e is Storage && !self.media_reliable()),
            },
            self.stores_reliable() && self.media_reliable() ==> (r is Ok <==> (has_key::<Capture>(
                self.rows(),
                id@,
            ) && uuid_text_accepted(id@) && self.files().contains_key(png_name(id@)))),
    {
        match self.repository.get(id)? {
            Some(_) => {},
            None => return Err(AppError::NotFound),
        }
        if !uuid_parses(id) {
            return Err(AppError::NotFound);
        }
        self.media.read_capture(id)
    }

    /// The recording file of capture `id`, whatever the capture's type now
    /// is; `NotFound` when no capture has that id or it has no such file.
    pub fn get_recording_media(&self, id: &str) -> (r: Result<Vec<u8>, AppError>)
        ensures
            match r {
                Ok(b) => has_key::<Capture>(self.rows(), id@) && uuid_text_accepted(id@)
                    && self.files().contains_key(mp4_name(id@)) && self.files()[mp4_name(id@)] == b@,
                Err(e) => (e is NotFound && !(has_key::<Capture>(self.rows(), id@) && uuid_text_accepted(
                    id@,
                ) && self.files().contains_key(mp4_name(id@)))) || (is_store_error(e)
                    && !self.stores_reliable()) || (e is Storage && !self.media_reliable()),
            },
            self.stores_reliable() && self.media_reliable() ==> (r is Ok <==> (has_key::<Capture>(
                self.rows(),
                id@,
            ) && uuid_text_accepted(id@) && self.files().contains_key(mp4_name(id@)))),
    {
        match self.repository.get(id)? {
            Some(_) => {},
            None => return Err(AppError::NotFound),
        }
        if !uuid_parses(id) {
            return Err(AppError::NotFound);
        }
        self.media.read_video(id)
    }

    /// Trims and validates the title and description, parses the type,
    /// checks the capture exists, and stores the change with `updated_at` set to
    /// `now`; id, process and `created_at` come from the stored
    /// capture. Media is never touched, whatever the type becomes.
    pub fn update_at(
        &mut self,
        id: &str,
        capture_type: &str,
        title: &str,
        description: Option<&str>,
        now: i64,
    ) -> (r: Result<Capture, AppError>)
        ensures
            final(self).stores_reliable() == old(self).stores_reliable(),
            final(self).media_reliable() == old(self).media_reliable(),
            final(self).process_rows() == old(self).process_rows(),
            final(self).files() == old(self).files(),
            r is Err ==> final(self).rows() == old(self).rows(),
            match (creation_texts(title@, text_or_empty(description)), capture_type_of_text(capture_type@)) {
                (Err(m), _) => r matches Err(e) && is_validation(e, m),
                (Ok(_), None) => r matches Err(e) && is_validation(e, invalid_type_message()),
                (Ok((t, d)), Some(k)) => match r {
                    Ok(c) => {
                        &&& c.id@ == id@
                        &&& c.updated_at == now
                        &&& c.title@ == t
                        &&& c.description@ == d
                        &&& c.capture_type == k
                        &&& exists|old_c: CaptureView|
                            is_row_with_key::<Capture>(old(self).rows(), id@, old_c)
                                && old_c.created_at == c.created_at && old_c.process_id
                                == c.process_id@
                        &&& final(self).rows() == overwritten_rows::<Capture>(old(self).rows(), c@)
                    },
                    Err(e) => (e is NotFound && !has_key::<Capture>(old(self).rows(), id@))
                        || is_store_error(e),
                },
            },
            old(self).stores_reliable() && creation_texts(title@, text_or_empty(description)) is Ok
                && capture_type_of_text(capture_type@) is Some ==> (r is Ok <==> has_key::<Capture>(
                old(self).rows(),
                id@,
            )),
    {
        let title = validate_title(title)?;
        let description = validate_description(str_or_empty(description))?;
        let capture_type = match CaptureType::parse(capture_type) {
            Some(t) => t,
            None => return Err(AppError::validation("Invalid capture type.")),
        };
        let existing = self.get(id)?;
        let capture = Capture {
            id: existing.id,
            process_id: existing.process_id,
            capture_type,
            title,
            description,
            created_at: existing.created_at,
            updated_at: now,
        };
        if self.repository.update(&capture)? {
            Ok(capture)
        } else {
            Err(AppError::NotFound)
        }
    }

    /// Trims and validates the title and description, parses the type,
    /// checks the capture exists, and stores the change with a fresh
    /// `updated_at`; id, process and `created_at` come from the stored
    /// capture. Media is never touched, whatever the type becomes.
    pub fn update(
        &mut self,
        id: &str,
        capture_type: &str,
        title: &str,
        description: Option<&str>,
    ) -> (r: Result<Capture, AppError>)
        ensures
            final(self).stores_reliable() == old(self).stores_reliable(),
            final(self).media_reliable() == old(self).media_reliable(),
            final(self).process_rows() == old(self).process_rows(),
            final(self).files() == old(self).files(),
            r is Err ==> final(self).rows() == old(self).rows(),
            match (creation_texts(title@, text_or_empty(description)), capture_type_of_text(capture_type@)) {
                (Err(m), _) => r matches Err(e) && is_validation(e, m),
                (Ok(_), None) => r matches Err(e) && is_validation(e, invalid_type_message()),
                (Ok((t, d)), Some(k)) => match r {
                    Ok(c) => {
                        &&& c.id@ == id@
                        &&& c.title@ == t
                        &&& c.description@ == d
                        &&& c.capture_type == k
                        &&& exists|old_c: CaptureView|
                            is_row_with_key::<Capture>(old(self).rows(), id@, old_c)
                                && old_c.created_at == c.created_at && old_c.process_id
                                == c.process_id@
                        &&& final(self).rows() == overwritten_rows::<Capture>(old(self).rows(), c@)
                    },
                    Err(e) => (e is NotFound && !has_key::<Capture>(old(self).rows(), id@))
                        || is_store_error(e),
                },
            },
            old(self).stores_reliable() && creation_texts(title@, text_or_empty(description)) is Ok
                && capture_type_of_text(capture_type@) is Some ==> (r is Ok <==> has_key::<Capture>(
                old(self).rows(),
                id@,
            )),
    {
        self.update_at(id, capture_type, title, description, now_ms())
    }

    /// Removes the capture record, then its screenshot and recording
    /// files, if any; a failure to remove a file does not undo the
    /// deletion. A capture that does not exist is `NotFound`, and then no
    /// media is touched.
    pub fn delete(&mut self, id: &str) -> (r: Result<(), AppError>)
        ensures
            final(self).stores_reliable() == old(self).stores_reliable(),
            final(self).media_reliable() == old(self).media_reliable(),
            final(self).process_rows() == old(self).process_rows(),
            r is Ok ==> has_key::<Capture>(old(self).rows(), id@),
            r is Ok ==> final(self).rows() == without_key::<Capture>(old(self).rows(), id@),
            r is Ok ==> no_new_files(old(self).files(), final(self).files()) && forall|n: Seq<char>|
                #[trigger] final(self).files().contains_key(n) ==> final(self).files()[n] == old(self).files()[n],
            r is Ok ==> forall|n: Seq<char>|
                n != png_name(id@) && n != mp4_name(id@) && #[trigger] old(self).files().contains_key(
                    n,
                ) ==> final(self).files().contains_key(n),
            r is Ok && old(self).media_reliable() && uuid_text_accepted(id@) ==> final(self).files()
                == old(self).files().remove(png_name(id@)).remove(mp4_name(id@)),
            r matches Err(e) ==> final(self).rows() == old(self).rows() && final(self).files() == old(self).files() && ((e is NotFound && !has_key::<Capture>(old(self).rows(), id@))
                || is_store_error(e)),
            old(self).stores_reliable() ==> (r is Ok <==> has_key::<Capture>(old(self).rows(), id@)),
    {
        if self.repository.delete(id)? {
            let _ = self.media.delete_capture(id);
            let _ = self.media.delete_video(id);
            Ok(())
        } else {
            proof {
                lemma_without_absent_key::<Capture>(old(self).rows(), id@);
            }
            Err(AppError::NotFound)
        }
    }

    /// Removes every media file whose capture record no longer exists,
    /// and gives how many files were removed. Meant for start-up, after
    /// records may have gone with their project or process.
    pub fn reconcile_media(&mut self) -> (r: Result<usize, AppError>)
        ensures
            final(self).stores_reliable() == old(self).stores_reliable(),
            final(self).media_reliable() == old(self).media_reliable(),
            final(self).rows() == old(self).rows(),
            final(self).process_rows() == old(self).process_rows(),
            forall|n: Seq<char>|
                #[trigger] final(self).files().contains_key(n) ==> old(self).files().contains_key(n)
                    && final(self).files()[n] == old(self).files()[n],
            forall|n: Seq<char>|
                #[trigger] old(self).files().contains_key(n) && !is_orphan(
                    n,
                    capture_ids(old(self).rows()).to_set(),
                ) ==> final(self).files().contains_key(n),
            r matches Ok(count) ==> count == old(self).files().dom().difference(
                final(self).files().dom(),
            ).len(),
            r is Err ==> final(self).files() == old(self).files(),
            old(self).stores_reliable() && old(self).media_listable() ==> r is Ok,
            old(self).stores_reliable() && old(self).media_reliable() ==> r is Ok && final(self).files().dom() == old(self).files().dom().filter(
                |n: Seq<char>| !is_orphan(n, capture_ids(old(self).rows()).to_set()),
            ),
    {
        let known = self.repository.list_all_ids()?;
        proof {
            let listed = known@.map_values(|s: String| s@);
            assert(texts(known@) == listed);
            lemma_same_multiset_same_set(listed, capture_ids(self.rows()));
        }
        self.media.reconcile(&known)
    }
}

} // verus!
