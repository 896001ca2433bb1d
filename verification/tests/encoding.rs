//! Wire encoding: numbers, identifiers, JSON bodies, and the session and
//! tracker directory layouts.

use devent_recorder::devents::{
    DeventRequest, DeventRequestWrapper, KeyboardAction, KeyboardActionKey, MouseAction,
    SaveRecordingRequest, ScrollAction,
};
use devent_recorder::json::{i32_str, i64_str, u64_str, uuid_str};
use devent_recorder::session::{RecordingSession, SessionStore};
use devent_recorder::tracker::CursorTracker;

#[test]
fn decimal_renderings() {
    assert_eq!(u64_str(0), "0");
    assert_eq!(u64_str(7), "7");
    assert_eq!(u64_str(1234567890), "1234567890");
    assert_eq!(u64_str(u64::MAX), "18446744073709551615");
    assert_eq!(i64_str(0), "0");
    assert_eq!(i64_str(-1), "-1");
    assert_eq!(i64_str(i64::MIN), "-9223372036854775808");
    assert_eq!(i64_str(i64::MAX), "9223372036854775807");
    assert_eq!(i32_str(i32::MIN), "-2147483648");
    assert_eq!(i32_str(-42), "-42");
}

#[test]
fn uuid_rendering_is_hyphenated_lowercase_hex() {
    assert_eq!(
        uuid_str(0xa1a2a3a4b1b2c1c2d1d2d3d4d5d6d7d8),
        "a1a2a3a4-b1b2-c1c2-d1d2-d3d4d5d6d7d8"
    );
    assert_eq!(uuid_str(0), "00000000-0000-0000-0000-000000000000");
    assert_eq!(uuid_str(u128::MAX), "ffffffff-ffff-ffff-ffff-ffffffffffff");
}

fn key_event(id: u128) -> DeventRequest {
    DeventRequest {
        session_id: id,
        mouse_action: None,
        keyboard_action: Some(KeyboardAction { key: KeyboardActionKey::A, duration: 100 }),
        scroll_action: None,
        mouse_x: 100,
        mouse_y: 200,
        event_timestamp_nanos: 1700000000000000000,
    }
}

#[test]
fn devent_json_exact() {
    let json = key_event(0xa1a2a3a4b1b2c1c2d1d2d3d4d5d6d7d8).to_json();
    assert_eq!(
        json,
        "{\"session_id\":\"a1a2a3a4-b1b2-c1c2-d1d2-d3d4d5d6d7d8\",\
         \"mouse_action\":null,\
         \"keyboard_action\":{\"key\":\"a\",\"duration\":100},\
         \"scroll_action\":null,\
         \"mouse_x\":100,\"mouse_y\":200,\
         \"event_timestamp_nanos\":1700000000000000000}"
    );
}

#[test]
fn devent_json_is_valid_json() {
    let json = key_event(7).to_json();
    let v: serde_json::Value = serde_json::from_str(&json).unwrap();
    assert_eq!(v["session_id"], "00000000-0000-0000-0000-000000000007");
    assert!(v["mouse_action"].is_null());
    assert_eq!(v["keyboard_action"]["key"], "a");
    assert_eq!(v["keyboard_action"]["duration"], 100);
    assert_eq!(v["mouse_x"], 100);
    assert_eq!(v["mouse_y"], 200);
    assert_eq!(v["event_timestamp_nanos"], 1700000000000000000i64);
}

#[test]
fn action_variant_json() {
    assert_eq!(MouseAction::Left.to_json(), "\"left\"");
    assert_eq!(MouseAction::Other(5).to_json(), "{\"other\":5}");
    assert_eq!(KeyboardActionKey::CapsLock.to_json(), "\"caps_lock\"");
    assert_eq!(KeyboardActionKey::Num0.to_json(), "\"0\"");
    assert_eq!(KeyboardActionKey::ArrowUp.to_json(), "\"arrow_up\"");
    assert_eq!(KeyboardActionKey::Unknown(177).to_json(), "{\"unknown\":177}");
    assert_eq!(ScrollAction { x: -3, y: 4 }.to_json(), "{\"x\":-3,\"y\":4}");
}

#[test]
fn key_names() {
    assert_eq!(KeyboardActionKey::PrintScreen.name(), "print_screen");
    assert_eq!(KeyboardActionKey::BracketLeft.name(), "bracket_left");
    assert_eq!(KeyboardActionKey::F12.name(), "f12");
    assert_eq!(KeyboardActionKey::Z.name(), "z");
    assert_eq!(KeyboardActionKey::Num9.name(), "9");
    assert_eq!(KeyboardActionKey::PageDown.name(), "page_down");
}

#[test]
fn wrapper_json_lists_events_in_order() {
    let mut scroll = key_event(7);
    scroll.keyboard_action = None;
    scroll.scroll_action = Some(ScrollAction { x: 0, y: 0 });
    let wrapper = DeventRequestWrapper { events: vec![key_event(7), scroll] };
    let json = wrapper.to_json();
    let v: serde_json::Value = serde_json::from_str(&json).unwrap();
    assert_eq!(v["events"].as_array().unwrap().len(), 2);
    assert_eq!(v["events"][0]["keyboard_action"]["key"], "a");
    assert_eq!(v["events"][1]["scroll_action"]["x"], 0);
    assert!(json.starts_with("{\"events\":["));
    assert!(json.ends_with("]}"));
}

#[test]
fn save_recording_request_json_exact() {
    let req = SaveRecordingRequest {
        recording_id: 1,
        session_id: 2,
        start_timestamp_nanos: 0,
        duration_ms: 0,
    };
    assert_eq!(
        req.to_json(),
        "{\"recording_id\":\"00000000-0000-0000-0000-000000000001\",\
         \"session_id\":\"00000000-0000-0000-0000-000000000002\",\
         \"start_timestamp_nanos\":0,\"duration_ms\":0}"
    );
}

#[test]
fn fresh_save_recording_request_fields() {
    let req = SaveRecordingRequest::new(77);
    assert_eq!(req.session_id, 77);
    assert_eq!(req.start_timestamp_nanos, 0);
    assert_eq!(req.duration_ms, 0);
}

#[test]
fn session_directory_layout() {
    let s = RecordingSession::from_parts(5, "/data/app", "20240101_120000");
    assert_eq!(s.output_dir, "/data/app/output/20240101_120000");
    assert_eq!(s.video_path(), "/data/app/output/20240101_120000/recordings");
    assert_eq!(
        s.chunk_pattern_path(),
        "/data/app/output/20240101_120000/recordings/chunk_%04d.mkv"
    );
    assert_eq!(s.segment_csv_path(), "/data/app/output/20240101_120000/segments.csv");
    assert_eq!(s.timestamp_path(), "/data/app/output/20240101_120000/timestamps.txt");
    assert_eq!(s.events.len(), 0);
}

#[test]
fn fresh_session_has_identifier_and_empty_buffer() {
    let s = RecordingSession::new("/data/app");
    assert_eq!(s.events.len(), 0);
    assert!(s.output_dir.starts_with("/data/app/output/"));
}

#[test]
fn session_store_single_slot() {
    let mut store = SessionStore::new();
    assert!(store.slot.is_none());
    assert!(store.create(RecordingSession::from_parts(1, "/d", "t")).is_ok());
    assert!(store.create(RecordingSession::from_parts(2, "/d", "t")).is_err());
    assert_eq!(store.slot.as_ref().unwrap().id, 1);
    let drained = store.drain_events();
    assert_eq!(drained.len(), 0);
    store.clear();
    assert!(store.slot.is_none());
}

#[test]
fn tracker_directory_layout() {
    let t = CursorTracker::from_dir("output/20240101_120000".to_string());
    assert_eq!(t.video_path(), "output/20240101_120000/recording.mkv");
    assert_eq!(t.frames_dir(), "output/20240101_120000/frames");
    assert_eq!(t.devent_path(), "output/20240101_120000/devents.csv");
}

#[test]
fn fresh_uuid_sets_version_and_variant_bits() {
    let id = devent_recorder::host::fresh_uuid();
    assert_eq!((id >> 76) & 0xf, 4);
    assert_eq!((id >> 62) & 0x3, 2);
    let rendered = uuid_str(id);
    assert_eq!(rendered.len(), 36);
    assert_eq!(rendered.as_bytes()[14], b'4');
}

#[test]
fn clock_reading_is_plausible() {
    let now = devent_recorder::host::now_timestamp_nanos();
    // while this test can run, the wall clock fits an i64
    assert!(now.is_some());
    let ts = devent_recorder::host::now_compact_timestamp();
    assert_eq!(ts.len(), 15);
    assert_eq!(ts.as_bytes()[8], b'_');
}
