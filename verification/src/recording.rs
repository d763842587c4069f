//! The one screen recording that may be in progress: what it records
//! for, and the handle that stops it.

use crate::errors::{is_validation, AppError};
use crate::native::recording::RecordingHandle;
use vstd::prelude::*;

verus! {

/// What the UI shows of a recording in progress.
pub struct RecordingStatusInfo {
    pub id: String,
    pub process_id: String,
    pub title: String,
    pub started_at: i64,
}

pub struct RecordingStatusView {
    pub id: Seq<char>,
    pub process_id: Seq<char>,
    pub title: Seq<char>,
    pub started_at: i64,
}

impl View for RecordingStatusInfo {
    type V = RecordingStatusView;

    open spec fn view(&self) -> RecordingStatusView {
        RecordingStatusView {
            id: self.id@,
            process_id: self.process_id@,
            title: self.title@,
            started_at: self.started_at,
        }
    }
}

impl RecordingStatusInfo {
    /// A field-by-field copy.
    pub fn duplicate(&self) -> (r: RecordingStatusInfo)
        ensures
            r@ == self@,
    {
        RecordingStatusInfo {
            id: self.id.clone(),
            process_id: self.process_id.clone(),
            title: self.title.clone(),
            started_at: self.started_at,
        }
    }
}

/// A recording in progress: its status, the description to store with
/// its capture once it stops, and the handle that stops it.
pub struct InProgressRecording {
    pub status: RecordingStatusInfo,
    pub description: Option<String>,
    pub handle: Box<dyn RecordingHandle>,
}

/// The message when a recording is already in progress.
pub open spec fn busy_message() -> Seq<char> {
    "A recording is already in progress. Stop it before starting another."@
}

/// The status of an optional recording.
pub open spec fn status_of(o: Option<InProgressRecording>) -> Option<RecordingStatusView> {
    match o {
        Some(r) => Some(r.status@),
        None => None,
    }
}

/// The description of an optional recording, empty when there is none.
pub open spec fn description_of(o: Option<InProgressRecording>) -> Seq<char> {
    match o {
        Some(r) => match r.description {
            Some(d) => d@,
            None => Seq::empty(),
        },
        None => Seq::empty(),
    }
}

/// At most one recording in progress; none at start.
pub struct RecordingState {
    current: Option<InProgressRecording>,
}

impl RecordingState {
    /// The status of the recording in progress, if any.
    pub closed spec fn in_progress(&self) -> Option<RecordingStatusView> {
        status_of(self.current)
    }

    /// The description to store with the recording in progress (empty
    /// when it has none, or when nothing is in progress).
    pub closed spec fn pending_description(&self) -> Seq<char> {
        description_of(self.current)
    }

    /// Starts a recording with `start` unless one is already in
    /// progress, and gives its status. A recording in progress is never
    /// replaced: `start` is then not called, and the request is refused.
    /// When `start` fails, nothing is stored.
    pub fn start<F: FnOnce() -> Result<InProgressRecording, AppError>>(&mut self, start: F) -> (r:
        Result<RecordingStatusInfo, AppError>)
        requires
            start.requires(()),
        ensures
            old(self).in_progress() is Some ==> (r matches Err(e) && is_validation(e, busy_message())
                && final(self).in_progress() == old(self).in_progress()),
            old(self).in_progress() is None ==> match r {
                Ok(s) => exists|rec: InProgressRecording|
                    start.ensures((), Ok(rec)) && rec.status@ == s@ && final(self).in_progress()
                        == Some(s@) && final(self).pending_description() == description_of(
                        Some(rec),
                    ),
                Err(e) => start.ensures((), Err(e)) && final(self).in_progress() is None,
            },
    {
        if self.current.is_some() {
            return Err(
                AppError::validation(
                    "A recording is already in progress. Stop it before starting another.",
                ),
            );
        }
        let started = start();
        match started {
            Ok(recording) => {
                let status = recording.status.duplicate();
                self.current = Some(recording);
                Ok(status)
            },
            Err(e) => Err(e),
        }
    }

    /// Ends the bookkeeping of the recording in progress and hands it
    /// over, so that it can be stopped; `None` when there is none.
    pub fn take(&mut self) -> (r: Option<InProgressRecording>)
        ensures
            status_of(r) == old(self).in_progress(),
            description_of(r) == old(self).pending_description(),
            final(self).in_progress() is None,
    {
        self.current.take()
    }

    /// The status of the recording in progress, if any.
    pub fn status(&self) -> (r: Option<RecordingStatusInfo>)
        ensures
            match r {
                Some(s) => self.in_progress() == Some(s@),
                None => self.in_progress() is None,
            },
    {
        match &self.current {
            Some(recording) => Some(recording.status.duplicate()),
            None => None,
        }
    }
}

impl Default for RecordingState {
    fn default() -> (r: Self)
        ensures
            r.in_progress() is None,
    {
        RecordingState { current: None }
    }
}

} // verus!
