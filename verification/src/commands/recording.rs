//! Starting and stopping a screen recording: the request is checked like
//! any capture before the recording starts, and the capture is created
//! when it stops.

use crate::clock::now_ms;
use crate::errors::{is_validation, AppError};
use crate::ids::{is_canonical_uuid, new_uuid};
use crate::media::{mp4_name, MediaFiles};
use crate::models::capture::{Capture, CaptureType};
use crate::native::recording::{RecordingEngine, RecordingHandle};
use crate::native::screenshot::ScreenshotEngine;
use crate::models::process::{Process, ProcessView};
use crate::recording::{description_of, InProgressRecording, RecordingState, RecordingStatusInfo};
use crate::repositories::table::has_key;
use crate::repositories::capture::CaptureRepository;
use crate::repositories::process::ProcessRepository;
use crate::services::capture::{creation_texts, CaptureService};
use crate::text::text_or_empty;
use vstd::prelude::*;

verus! {

pub struct StartRecordingInput {
    pub process_id: String,
    pub title: String,
    pub description: Option<String>,
    /// Whether to record the microphone too.
    pub include_audio: bool,
}

/// The description text of a request, empty when it has none.
pub open spec fn description_text(input: &StartRecordingInput) -> Seq<char> {
    match input.description {
        Some(d) => d@,
        None => Seq::empty(),
    }
}

/// `r` is how starting a recording for `input` may end: refused with the
/// message of the first rule the title or description breaks; else
/// started for an existing process under a fresh id, with the trimmed
/// title and the trimmed description (none when empty); else failed in
/// the store or the recorder.
pub open spec fn begins(
    r: Result<InProgressRecording, AppError>,
    input: &StartRecordingInput,
    processes: Seq<ProcessView>,
) -> bool {
    match creation_texts(input.title@, description_text(input)) {
        Err(m) => r matches Err(e) && is_validation(e, m),
        Ok((t, d)) => match r {
            Ok(rec) => {
                &&& has_key::<Process>(processes, input.process_id@)
                &&& is_canonical_uuid(rec.status.id@)
                &&& rec.status.process_id@ == input.process_id@
                &&& rec.status.title@ == t
                &&& description_of(Some(rec)) == d
            },
            Err(e) => true,
        },
    }
}

/// The message when there is no recording to stop.
pub open spec fn nothing_to_stop_message() -> Seq<char> {
    "No recording is in progress."@
}

/// Checks a request to record like any capture, then starts recording
/// to a fresh capture id's video file.
pub fn begin_recording<
    R: CaptureRepository,
    P: ProcessRepository,
    F: MediaFiles,
    S: ScreenshotEngine,
    E: RecordingEngine,
>(service: &CaptureService<R, P, F, S>, engine: &E, input: &StartRecordingInput) -> (r: Result<
    InProgressRecording,
    AppError,
>)
    ensures
        begins(r, input, service.process_rows()),
        service.stores_reliable() && creation_texts(input.title@, description_text(input)) is Ok
            && !has_key::<Process>(service.process_rows(), input.process_id@) ==> (r matches Err(e)
            && e is NotFound),
        r matches Ok(rec) ==> exists|path: &str, started: Result<Box<dyn RecordingHandle>, AppError>|
            {
                &&& path@ == mp4_name(rec.status.id@)
                &&& #[trigger] call_ensures(E::start, (engine, path, input.include_audio), started)
                &&& started is Ok
            },
{
    let description_in: Option<&str> = match &input.description {
        Some(d) => Some(d.as_str()),
        None => None,
    };
    assert(text_or_empty(description_in) == description_text(input));
    let (title, description) = service.validate_recording_start(
        input.process_id.as_str(),
        input.title.as_str(),
        description_in,
    )?;
    let id = new_uuid();
    let output_path = service.media().video_path(id.as_str())?;
    let path = output_path.as_str();
    let started = engine.start(path, input.include_audio);
    let ghost outcome = started;
    let handle = match started {
        Ok(h) => h,
        Err(e) => return Err(e),
    };
    assert(outcome is Ok);
    let kept = if description.unicode_len() == 0 {
        None
    } else {
        Some(description)
    };
    let rec = InProgressRecording {
        status: RecordingStatusInfo {
            id,
            process_id: input.process_id.clone(),
            title,
            started_at: now_ms(),
        },
        description: kept,
        handle,
    };
    assert(description_of(Some(rec)) == description@);
    assert(call_ensures(E::start, (engine, path, input.include_audio), outcome));
    Ok(rec)
}

/// Starts recording for `input` unless a recording is in progress; the
/// request is checked like any capture before the recorder starts.
pub fn start_recording_capture<
    R: CaptureRepository,
    P: ProcessRepository,
    F: MediaFiles,
    S: ScreenshotEngine,
    E: RecordingEngine,
>(
    state: &mut RecordingState,
    service: &CaptureService<R, P, F, S>,
    engine: &E,
    input: StartRecordingInput,
) -> (r: Result<RecordingStatusInfo, AppError>)
    ensures
        old(state).in_progress() is Some ==> (r matches Err(e) && is_validation(
            e,
            crate::recording::busy_message(),
        ) && final(state).in_progress() == old(state).in_progress()),
        old(state).in_progress() is None ==> match r {
            Ok(s) => exists|rec: InProgressRecording|
                begins(Ok(rec), &input, service.process_rows()) && rec.status@ == s@ && final(state).in_progress() == Some(s@) && final(state).pending_description()
                    == description_of(Some(rec)),
            Err(e) => begins(Err(e), &input, service.process_rows()) && final(state).in_progress() is None,
        },
{
    let ghost rows = service.process_rows();
    let begin = || -> (b: Result<InProgressRecording, AppError>)
        ensures
            begins(b, &input, rows),
        { begin_recording(service, engine, &input) };
    state.start(begin)
}

/// Stops the recording in progress and creates its capture under the id
/// its video was written with; refused when nothing is in progress.
pub fn stop_recording_capture<R: CaptureRepository, P: ProcessRepository, F: MediaFiles, S: ScreenshotEngine>(
    state: &mut RecordingState,
    service: &mut CaptureService<R, P, F, S>,
) -> (r: Result<Capture, AppError>)
    ensures
        final(state).in_progress() is None,
        old(state).in_progress() is None ==> (r matches Err(e) && is_validation(
            e,
            nothing_to_stop_message(),
        ) && final(service).rows() == old(service).rows()),
        r is Err ==> final(service).rows() == old(service).rows(),
        r matches Ok(c) ==> old(state).in_progress() matches Some(s) && c.id@ == s.id
            && c.process_id@ == s.process_id && c.title@ == s.title && c.description@ == old(state).pending_description() && c.capture_type == CaptureType::Recording && final(service).rows()
            == old(service).rows().push(c@),
{
    let in_progress = match state.take() {
        Some(recording) => recording,
        None => return Err(AppError::validation("No recording is in progress.")),
    };
    let InProgressRecording { status, description, handle } = in_progress;
    handle.stop()?;
    let description_text = match &description {
        Some(d) => d.as_str(),
        None => "",
    };
    proof {
        reveal_strlit("");
    }
    service.finalize_recording(
        status.id.as_str(),
        status.process_id.as_str(),
        status.title.as_str(),
        description_text,
    )
}

} // verus!
