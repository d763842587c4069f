use golive::errors::AppError;
use golive::native::recording::{i16_to_pcm16, RecordingHandle};
use golive::recording::{InProgressRecording, RecordingState, RecordingStatusInfo};
use std::sync::atomic::AtomicBool;
use std::sync::Arc;

struct FakeHandle {
    stopped: Arc<AtomicBool>,
}

impl RecordingHandle for FakeHandle {
    fn stop(self: Box<Self>) -> Result<(), AppError> {
        self.stopped.store(true, std::sync::atomic::Ordering::SeqCst);
        Ok(())
    }
}

fn sample_recording() -> InProgressRecording {
    InProgressRecording {
        status: RecordingStatusInfo {
            id: "capture-1".to_string(),
            process_id: "process-1".to_string(),
            title: "My recording".to_string(),
            started_at: 1000,
        },
        description: None,
        handle: Box::new(FakeHandle { stopped: Arc::new(AtomicBool::new(false)) }),
    }
}

#[test]
fn start_stores_the_recording_and_returns_its_status() {
    let mut state = RecordingState::default();
    let status = state.start(|| Ok(sample_recording())).expect("start");

    assert_eq!(status.id, "capture-1");
    assert_eq!(status.process_id, "process-1");
    assert_eq!(status.title, "My recording");
    assert_eq!(status.started_at, 1000);
}

#[test]
fn start_rejects_a_second_recording_while_one_is_in_progress() {
    let mut state = RecordingState::default();
    state.start(|| Ok(sample_recording())).expect("first start");

    let result = state.start(|| Ok(sample_recording()));
    assert!(matches!(result, Err(AppError::Validation(_))));
}

#[test]
fn start_propagates_a_failure_from_the_closure_without_storing_anything() {
    let mut state = RecordingState::default();
    let result: Result<_, AppError> = state.start(|| Err(AppError::Validation("nope".to_string())));
    assert!(result.is_err());

    state.start(|| Ok(sample_recording())).expect("start after a failed attempt should succeed");
}

#[test]
fn take_returns_the_recording_once_and_none_afterward() {
    let mut state = RecordingState::default();
    state.start(|| Ok(sample_recording())).expect("start");

    let taken = state.take();
    assert!(taken.is_some());
    assert_eq!(taken.unwrap().status.id, "capture-1");

    assert!(state.take().is_none(), "a second take must find nothing left");
}

#[test]
fn after_take_a_new_recording_can_be_started() {
    let mut state = RecordingState::default();
    state.start(|| Ok(sample_recording())).expect("start");
    state.take();

    state.start(|| Ok(sample_recording())).expect("start after take should succeed");
}

#[test]
fn status_reflects_the_current_in_progress_recording() {
    let mut state = RecordingState::default();
    assert!(state.status().is_none(), "nothing in progress yet");

    state.start(|| Ok(sample_recording())).expect("start");
    let status = state.status().expect("a recording is in progress");
    assert_eq!(status.id, "capture-1");

    state.take();
    assert!(state.status().is_none(), "nothing left after take");
}

#[test]
fn a_refused_second_start_never_calls_its_closure() {
    let mut state = RecordingState::default();
    state.start(|| Ok(sample_recording())).expect("first start");
    let result = state.start(|| panic!("must not start a second recording"));
    match result {
        Err(AppError::Validation(m)) => {
            assert_eq!(m, "A recording is already in progress. Stop it before starting another.")
        },
        _ => panic!("expected the busy refusal"),
    }
    assert_eq!(state.status().expect("still recording").id, "capture-1");
}

#[test]
fn taken_handle_stops_the_recording() {
    let stopped = Arc::new(AtomicBool::new(false));
    let mut state = RecordingState::default();
    let flag = stopped.clone();
    state
        .start(move || {
            Ok(InProgressRecording {
                status: RecordingStatusInfo {
                    id: "capture-2".to_string(),
                    process_id: "process-1".to_string(),
                    title: "t".to_string(),
                    started_at: 5,
                },
                description: Some("d".to_string()),
                handle: Box::new(FakeHandle { stopped: flag }),
            })
        })
        .expect("start");
    let taken = state.take().expect("in progress");
    assert_eq!(taken.description.as_deref(), Some("d"));
    taken.handle.stop().expect("stop");
    assert!(stopped.load(std::sync::atomic::Ordering::SeqCst));
}

#[test]
fn i16_samples_become_little_endian_bytes() {
    assert_eq!(i16_to_pcm16(&[0x0102, -1, 0]), vec![0x02, 0x01, 0xff, 0xff, 0x00, 0x00]);
    assert!(i16_to_pcm16(&[]).is_empty());
}
