//! The deterministic filter over deliveries from the OS input stream.

use devent_recorder::capture::CaptureState;
use devent_recorder::devents::{
    KeyboardAction, KeyboardActionKey, MouseAction, OsButton, OsEvent, OsKey, ScrollAction,
};
use devent_recorder::recorder::RecorderState;
use devent_recorder::session::RecordingSession;

fn running_recorder(id: u128) -> RecorderState {
    let mut rec = RecorderState::new();
    rec.request_start(RecordingSession::from_parts(id, "/data/app", "20240101_000000"))
        .unwrap();
    rec.confirm_start();
    rec
}

#[test]
fn single_keypress_uses_last_pointer_position() {
    let mut rec = running_recorder(9);
    let mut cursor = CaptureState::new();
    let moved = rec.capture_event(
        &mut cursor,
        &OsEvent::MouseMove { x: 100, y: 200 },
        Some(1_000),
    );
    assert!(!moved); // pointer movements are never recorded
    let recorded = rec.capture_event(&mut cursor, &OsEvent::KeyPress(OsKey::KeyA), Some(2_000));
    assert!(recorded);
    rec.request_stop().unwrap();
    let batch = rec.finish_stop();
    assert_eq!(batch.events.len(), 1);
    let e = &batch.events[0];
    assert_eq!(e.session_id, 9);
    assert_eq!(
        e.keyboard_action,
        Some(KeyboardAction { key: KeyboardActionKey::A, duration: 100 })
    );
    assert_eq!(e.mouse_action, None);
    assert_eq!(e.scroll_action, None);
    assert_eq!(e.mouse_x, 100);
    assert_eq!(e.mouse_y, 200);
    assert_eq!(e.event_timestamp_nanos, 2_000);
}

#[test]
fn click_reads_latest_move() {
    let mut rec = running_recorder(3);
    let mut cursor = CaptureState::new();
    rec.capture_event(&mut cursor, &OsEvent::MouseMove { x: 50, y: 60 }, Some(1));
    rec.capture_event(&mut cursor, &OsEvent::MouseMove { x: 300, y: 400 }, Some(2));
    let recorded = rec.capture_event(
        &mut cursor,
        &OsEvent::ButtonPress(OsButton::Left),
        Some(3),
    );
    assert!(recorded);
    rec.request_stop().unwrap();
    let batch = rec.finish_stop();
    assert_eq!(batch.events.len(), 1);
    let e = &batch.events[0];
    assert_eq!(e.mouse_action, Some(MouseAction::Left));
    assert_eq!(e.mouse_x, 300);
    assert_eq!(e.mouse_y, 400);
}

#[test]
fn key_before_any_move_is_at_origin() {
    let mut rec = running_recorder(1);
    let mut cursor = CaptureState::new();
    let recorded = rec.capture_event(&mut cursor, &OsEvent::KeyPress(OsKey::KeyZ), Some(5));
    assert!(recorded);
    rec.request_stop().unwrap();
    let batch = rec.finish_stop();
    assert_eq!(batch.events[0].mouse_x, 0);
    assert_eq!(batch.events[0].mouse_y, 0);
}

#[test]
fn zero_delta_wheel_still_recorded() {
    let mut rec = running_recorder(1);
    let mut cursor = CaptureState::new();
    let recorded = rec.capture_event(
        &mut cursor,
        &OsEvent::Wheel { delta_x: 0, delta_y: 0 },
        Some(5),
    );
    assert!(recorded);
    rec.request_stop().unwrap();
    let batch = rec.finish_stop();
    assert_eq!(batch.events[0].scroll_action, Some(ScrollAction { x: 0, y: 0 }));
}

#[test]
fn clock_failure_drops_event_but_later_events_recordable() {
    let mut rec = running_recorder(1);
    let mut cursor = CaptureState::new();
    let first = rec.capture_event(&mut cursor, &OsEvent::KeyPress(OsKey::KeyQ), None);
    assert!(!first); // no clock reading: dropped
    let second = rec.capture_event(&mut cursor, &OsEvent::KeyPress(OsKey::KeyW), Some(9));
    assert!(second);
    rec.request_stop().unwrap();
    let batch = rec.finish_stop();
    assert_eq!(batch.events.len(), 1);
    assert_eq!(
        batch.events[0].keyboard_action,
        Some(KeyboardAction { key: KeyboardActionKey::W, duration: 100 })
    );
}

#[test]
fn stop_flag_short_circuits_capture() {
    let mut rec = running_recorder(1);
    let mut cursor = CaptureState::new();
    rec.request_stop().unwrap();
    let recorded = rec.capture_event(&mut cursor, &OsEvent::KeyPress(OsKey::KeyA), Some(1));
    assert!(!recorded);
    let batch = rec.finish_stop();
    assert_eq!(batch.events.len(), 0);
}

#[test]
fn releases_are_dropped() {
    let mut rec = running_recorder(1);
    let mut cursor = CaptureState::new();
    assert!(!rec.capture_event(&mut cursor, &OsEvent::KeyRelease(OsKey::KeyA), Some(1)));
    assert!(!rec.capture_event(
        &mut cursor,
        &OsEvent::ButtonRelease(OsButton::Left),
        Some(2)
    ));
    rec.request_stop().unwrap();
    assert_eq!(rec.finish_stop().events.len(), 0);
}

#[test]
fn every_event_carries_session_id() {
    let mut rec = running_recorder(42);
    let mut cursor = CaptureState::new();
    rec.capture_event(&mut cursor, &OsEvent::KeyPress(OsKey::KeyA), Some(1));
    rec.capture_event(&mut cursor, &OsEvent::ButtonPress(OsButton::Right), Some(2));
    rec.capture_event(
        &mut cursor,
        &OsEvent::Wheel { delta_x: -3, delta_y: 4 },
        Some(3),
    );
    rec.request_stop().unwrap();
    let batch = rec.finish_stop();
    assert_eq!(batch.events.len(), 3);
    for e in &batch.events {
        assert_eq!(e.session_id, 42);
    }
}

#[test]
fn key_mapping_collapses_modifier_sides() {
    assert_eq!(OsKey::ControlLeft.into_action(), KeyboardActionKey::Control);
    assert_eq!(OsKey::ControlRight.into_action(), KeyboardActionKey::Control);
    assert_eq!(OsKey::ShiftLeft.into_action(), KeyboardActionKey::Shift);
    assert_eq!(OsKey::AltGr.into_action(), KeyboardActionKey::Alt);
    assert_eq!(OsKey::MetaRight.into_action(), KeyboardActionKey::Meta);
    assert_eq!(OsKey::Return.into_action(), KeyboardActionKey::Enter);
    assert_eq!(OsKey::BackQuote.into_action(), KeyboardActionKey::Grave);
    assert_eq!(OsKey::Dot.into_action(), KeyboardActionKey::Period);
    assert_eq!(OsKey::Unknown(177).into_action(), KeyboardActionKey::Unknown(177));
    assert_eq!(OsKey::Other.into_action(), KeyboardActionKey::Unknown(0));
}

#[test]
fn button_mapping() {
    assert_eq!(OsButton::Left.into_action(), MouseAction::Left);
    assert_eq!(OsButton::Right.into_action(), MouseAction::Right);
    assert_eq!(OsButton::Middle.into_action(), MouseAction::Middle);
    assert_eq!(OsButton::Unknown(5).into_action(), MouseAction::Other(5));
}

#[test]
fn mouse_action_labels() {
    assert_eq!(MouseAction::Left.label(), "left");
    assert_eq!(MouseAction::Right.label(), "right");
    assert_eq!(MouseAction::Middle.label(), "middle");
    assert_eq!(MouseAction::Other(9).label(), "other");
}

#[test]
fn capture_without_session_updates_cursor_only() {
    let mut rec = RecorderState::new();
    let mut cursor = CaptureState::new();
    let recorded = rec.capture_event(&mut cursor, &OsEvent::MouseMove { x: 8, y: 9 }, Some(1));
    assert!(!recorded);
    assert_eq!(cursor.last_x, 8);
    assert_eq!(cursor.last_y, 9);
    assert!(!rec.capture_event(&mut cursor, &OsEvent::KeyPress(OsKey::KeyA), Some(2)));
    assert!(rec.store.slot.is_none());
}

#[test]
fn wheel_deltas_truncate_to_i32() {
    let mut rec = running_recorder(1);
    let mut cursor = CaptureState::new();
    assert!(rec.capture_event(
        &mut cursor,
        &OsEvent::Wheel { delta_x: -1, delta_y: 7 },
        Some(1)
    ));
    rec.request_stop().unwrap();
    let batch = rec.finish_stop();
    assert_eq!(batch.events[0].scroll_action, Some(ScrollAction { x: -1, y: 7 }));
}
