//! Start/stop lifecycle of the session controller.

use devent_recorder::recorder::{RecorderPhase, RecorderState, StartFailure};
use devent_recorder::session::{RecorderError, RecordingSession};

fn fresh_session(id: u128) -> RecordingSession {
    RecordingSession::from_parts(id, "/data/app", "20240101_000000")
}

#[test]
fn empty_session_start_stop() {
    let mut rec = RecorderState::new();
    assert!(rec.request_start(fresh_session(7)).is_ok());
    assert!(matches!(rec.phase, RecorderPhase::Starting));
    rec.confirm_start();
    assert!(matches!(rec.phase, RecorderPhase::Running));
    assert!(rec.request_stop().is_ok());
    assert!(rec.stop_requested());
    let batch = rec.finish_stop();
    assert_eq!(batch.events.len(), 0);
    assert_eq!(batch.to_json(), "{\"events\":[]}");
    assert!(rec.store.slot.is_none());
    assert!(matches!(rec.phase, RecorderPhase::Idle));
}

#[test]
fn start_then_stop_leaves_slot_empty() {
    let mut rec = RecorderState::new();
    assert!(rec.request_start(fresh_session(1)).is_ok());
    rec.confirm_start();
    assert!(rec.request_stop().is_ok());
    let _ = rec.finish_stop();
    assert!(rec.store.slot.is_none());
    assert!(!rec.encoder_worker);
    assert!(!rec.capture_worker);
    assert!(!rec.watcher_worker);
}

#[test]
fn second_start_rejected() {
    let mut rec = RecorderState::new();
    assert!(rec.request_start(fresh_session(1)).is_ok());
    rec.confirm_start();
    let second = rec.request_start(fresh_session(2));
    assert_eq!(second, Err(RecorderError::AlreadyActive));
    // the first session is intact
    assert_eq!(rec.store.slot.as_ref().unwrap().id, 1);
    assert!(rec.request_stop().is_ok());
    let _ = rec.finish_stop();
}

#[test]
fn second_stop_rejected() {
    let mut rec = RecorderState::new();
    assert!(rec.request_start(fresh_session(1)).is_ok());
    rec.confirm_start();
    assert!(rec.request_stop().is_ok());
    let _ = rec.finish_stop();
    let again = rec.request_stop();
    assert_eq!(again, Err(RecorderError::NotActive));
    assert!(rec.store.slot.is_none());
    assert!(matches!(rec.phase, RecorderPhase::Idle));
}

#[test]
fn stop_without_start_rejected() {
    let mut rec = RecorderState::new();
    assert_eq!(rec.request_stop(), Err(RecorderError::NotActive));
}

#[test]
fn encoder_spawn_failure_aborts_session() {
    let mut rec = RecorderState::new();
    assert!(rec.request_start(fresh_session(1)).is_ok());
    let err = rec.abort_start(StartFailure::EncoderSpawn);
    assert_eq!(err, RecorderError::EncoderUnavailable);
    assert!(rec.store.slot.is_none());
    assert!(matches!(rec.phase, RecorderPhase::Idle));
    // a later start succeeds
    assert!(rec.request_start(fresh_session(2)).is_ok());
    rec.confirm_start();
    assert!(rec.request_stop().is_ok());
    let _ = rec.finish_stop();
    assert!(rec.store.slot.is_none());
}

#[test]
fn setup_io_failure_aborts_session() {
    let mut rec = RecorderState::new();
    assert!(rec.request_start(fresh_session(1)).is_ok());
    let err = rec.abort_start(StartFailure::SetupIo);
    assert_eq!(err, RecorderError::IoError);
    assert!(rec.store.slot.is_none());
}

#[test]
fn notification_names() {
    assert_eq!(devent_recorder::recorder::RECORDING_STARTED_EVENT, "recording_started");
    assert_eq!(devent_recorder::recorder::RECORDING_COMPLETE_EVENT, "recording_complete");
}

#[test]
fn devents_endpoint_under_base() {
    let url = devent_recorder::recorder::devents_create_endpoint("https://example.test");
    assert_eq!(url, "https://example.test/devents/create");
}
