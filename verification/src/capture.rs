//! The deterministic filter applied to every delivery from the OS global
//! input stream.
//!
//! For each delivered event, in order: if the stop flag is set the event is
//! dropped; if the wall clock cannot be read the event is dropped; a pure
//! pointer movement only updates the cached last pointer position and is
//! never recorded; a button press, key press or wheel event is recorded
//! with the cached position and the reading of the clock; everything else
//! (releases included) is dropped. The cached position is updated only on
//! movements and read on all other events.

use vstd::prelude::*;

use crate::devents::{
    button_action_of, key_action_of, DeventRequest, KeyboardAction, OsEvent, ScrollAction,
};

verus! {

/// The synthetic press duration stamped on every keyboard action, in
/// milliseconds.
pub const KEY_PRESS_DURATION_MS: i32 = 100;

/// The last known pointer position, in scaled integer screen coordinates.
/// Before the first pointer movement it is the origin.
#[derive(Clone, Copy, Debug, PartialEq, Eq)]
pub struct CaptureState {
    pub last_x: i32,
    pub last_y: i32,
}

impl CaptureState {
    /// The state before any pointer movement was seen.
    pub fn new() -> (r: CaptureState)
        ensures
            r.last_x == 0 && r.last_y == 0,
    {
        CaptureState { last_x: 0, last_y: 0 }
    }
}

/// The cached pointer position after one delivery: a pointer movement that
/// is neither short-circuited by the stop flag nor dropped for want of a
/// clock reading replaces it; every other delivery leaves it unchanged.
pub open spec fn spec_capture_cursor(
    c: CaptureState,
    stop: bool,
    now_nanos: Option<i64>,
    ev: OsEvent,
) -> CaptureState {
    if !stop && now_nanos is Some {
        match ev {
            OsEvent::MouseMove { x, y } => CaptureState { last_x: x, last_y: y },
            _ => c,
        }
    } else {
        c
    }
}

/// The event recorded for one delivery, if any: nothing while the stop
/// flag is set, nothing without a clock reading, nothing for a pointer
/// movement or a release, and otherwise a fully populated record carrying
/// the session identifier, exactly one action, the cached pointer position
/// and the clock reading.
pub open spec fn spec_capture_record(
    c: CaptureState,
    stop: bool,
    now_nanos: Option<i64>,
    ev: OsEvent,
    session_id: u128,
) -> Option<DeventRequest> {
    if stop || now_nanos is None {
        None
    } else {
        let blank = DeventRequest {
            session_id,
            mouse_action: None,
            keyboard_action: None,
            scroll_action: None,
            mouse_x: c.last_x,
            mouse_y: c.last_y,
            event_timestamp_nanos: now_nanos->Some_0,
        };
        match ev {
            OsEvent::ButtonPress(b) => Some(
                DeventRequest { mouse_action: Some(button_action_of(b)), ..blank },
            ),
            OsEvent::KeyPress(k) => Some(
                DeventRequest {
                    keyboard_action: Some(
                        KeyboardAction { key: key_action_of(k), duration: KEY_PRESS_DURATION_MS },
                    ),
                    ..blank
                },
            ),
            OsEvent::Wheel { delta_x, delta_y } => Some(
                DeventRequest {
                    scroll_action: Some(
                        ScrollAction { x: delta_x as i32, y: delta_y as i32 },
                    ),
                    ..blank
                },
            ),
            _ => None,
        }
    }
}

/// Applies the capture filter to one delivery: updates the cached pointer
/// position exactly as `spec_capture_cursor` says and returns exactly the
/// record `spec_capture_record` says, both against the same prior state.
pub fn capture_step(
    cursor: &mut CaptureState,
    stop: bool,
    now_nanos: Option<i64>,
    ev: &OsEvent,
    session_id: u128,
) -> (r: Option<DeventRequest>)
    ensures
        *final(cursor) == spec_capture_cursor(*old(cursor), stop, now_nanos, *ev),
        r == spec_capture_record(*old(cursor), stop, now_nanos, *ev, session_id),
        r is Some ==> r->Some_0.session_id == session_id,
{
    if stop {
        return None;
    }
    let timestamp: i64 = match now_nanos {
        Some(t) => t,
        None => {
            return None;
        },
    };
    if let OsEvent::MouseMove { x, y } = ev {
        cursor.last_x = *x;
        cursor.last_y = *y;
        return None;
    }
    let blank = DeventRequest {
        session_id,
        mouse_action: None,
        keyboard_action: None,
        scroll_action: None,
        mouse_x: cursor.last_x,
        mouse_y: cursor.last_y,
        event_timestamp_nanos: timestamp,
    };
    match ev {
        OsEvent::ButtonPress(b) => Some(
            DeventRequest { mouse_action: Some(b.into_action()), ..blank },
        ),
        OsEvent::KeyPress(k) => Some(
            DeventRequest {
                keyboard_action: Some(
                    KeyboardAction { key: k.into_action(), duration: KEY_PRESS_DURATION_MS },
                ),
                ..blank
            },
        ),
        OsEvent::Wheel { delta_x, delta_y } => Some(
            DeventRequest {
                scroll_action: Some(
                    ScrollAction {
                        x: #[verifier::truncate] (*delta_x as i32),
                        y: #[verifier::truncate] (*delta_y as i32),
                    },
                ),
                ..blank
            },
        ),
        _ => None,
    }
}

} // verus!
