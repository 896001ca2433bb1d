//! The session controller: deterministic start/stop lifecycle around the
//! single-slot session store.
//!
//! The controller is a state machine. `Idle` and `Running` are the steady
//! states; `Starting` and `Stopping` are the transients while the
//! surrounding process creates directories and spawns workers, or joins
//! them. The store slot is occupied exactly outside `Idle`. Each exec
//! transition returns precisely the state its spec-level twin describes,
//! so properties that span several calls are proved once over the spec
//! transitions and hold of every caller.
//!
//! The surrounding process drives the machine: on a start request it asks
//! for the slot (`request_start`), then creates the output directories and
//! spawns the encoder, capture and watcher workers, then either
//! `confirm_start` or, if setup failed, `abort_start`. On a stop request
//! it sets the stop flag (`request_stop`), joins the workers, and drains
//! the session (`finish_stop`) to post the final event batch.

use vstd::prelude::*;

use crate::capture::{spec_capture_cursor, spec_capture_record, capture_step, CaptureState};
use crate::devents::{DeventRequestWrapper, OsEvent};
use crate::session::{RecorderError, RecordingSession, SessionStore};

verus! {

/// The notification name emitted to the embedding shell on a successful
/// start.
pub const RECORDING_STARTED_EVENT: &'static str = "recording_started";

/// The notification name emitted to the embedding shell after the final
/// event batch is drained.
pub const RECORDING_COMPLETE_EVENT: &'static str = "recording_complete";

/// The URL of the event-ingest endpoint under the given service base URL;
/// the final batch of a session is posted there once.
pub fn devents_create_endpoint(base_url: &str) -> (r: String)
    ensures
        r@ == base_url@ + "/devents/create"@,
{
    let mut s = String::from_str(base_url);
    s.append("/devents/create");
    s
}

/// Why a start that had claimed the slot could not be completed.
#[derive(Clone, Copy, Debug, PartialEq, Eq)]
pub enum StartFailure {
    /// The output directories could not be created.
    SetupIo,
    /// The external encoder could not be spawned.
    EncoderSpawn,
}

/// Lifecycle phase of the controller.
#[derive(Clone, Copy, Debug, PartialEq, Eq)]
pub enum RecorderPhase {
    Idle,
    Starting,
    Running,
    Stopping,
}

/// The controller state: the session slot, the lifecycle phase, the
/// cooperative stop flag polled by every worker, and one flag per worker
/// recording whether the controller still considers it runnable.
pub struct RecorderState {
    pub store: SessionStore,
    pub phase: RecorderPhase,
    pub stop_flag: bool,
    pub encoder_worker: bool,
    pub capture_worker: bool,
    pub watcher_worker: bool,
}

impl RecorderState {
    /// The slot is occupied exactly outside `Idle`; an idle controller has
    /// no runnable workers; buffered events carry the session identifier.
    pub open spec fn wf(self) -> bool {
        &&& self.store.wf()
        &&& (self.store.slot is Some <==> !(self.phase is Idle))
        &&& (self.phase is Idle ==> !self.encoder_worker && !self.capture_worker
            && !self.watcher_worker)
    }

    /// A fresh controller: idle, empty slot, stop flag clear, no workers.
    pub fn new() -> (r: RecorderState)
        ensures
            r.wf(),
            r.phase is Idle,
            r.store.slot is None,
            !r.stop_flag,
            !r.encoder_worker && !r.capture_worker && !r.watcher_worker,
    {
        RecorderState {
            store: SessionStore::new(),
            phase: RecorderPhase::Idle,
            stop_flag: false,
            encoder_worker: false,
            capture_worker: false,
            watcher_worker: false,
        }
    }
}

/// Claiming the slot for a fresh session: fails with `AlreadyActive`,
/// changing nothing, iff the slot is occupied; otherwise fills the slot,
/// clears the stop flag and enters `Starting`.
pub open spec fn spec_request_start(s: RecorderState, session: RecordingSession) -> (RecorderState,
    Result<(), RecorderError>) {
    if s.store.slot is Some {
        (s, Err(RecorderError::AlreadyActive))
    } else {
        (
            RecorderState {
                store: SessionStore { slot: Some(session) },
                phase: RecorderPhase::Starting,
                stop_flag: false,
                ..s
            },
            Ok(()),
        )
    }
}

/// All workers are up: `Starting` becomes `Running`.
pub open spec fn spec_confirm_start(s: RecorderState) -> RecorderState {
    RecorderState {
        phase: RecorderPhase::Running,
        encoder_worker: true,
        capture_worker: true,
        watcher_worker: true,
        ..s
    }
}

/// Setup failed after the slot was claimed: the session is aborted, the
/// slot emptied, and the cause surfaced as the matching error.
pub open spec fn spec_abort_start(s: RecorderState, cause: StartFailure) -> (RecorderState,
    RecorderError) {
    (
        RecorderState {
            store: SessionStore { slot: None },
            phase: RecorderPhase::Idle,
            encoder_worker: false,
            capture_worker: false,
            watcher_worker: false,
            ..s
        },
        match cause {
            StartFailure::SetupIo => RecorderError::IoError,
            StartFailure::EncoderSpawn => RecorderError::EncoderUnavailable,
        },
    )
}

/// Requesting a stop: fails with `NotActive`, changing nothing, iff the
/// slot is empty; otherwise sets the stop flag and enters `Stopping`.
pub open spec fn spec_request_stop(s: RecorderState) -> (RecorderState, Result<
    (),
    RecorderError,
>) {
    if s.store.slot is None {
        (s, Err(RecorderError::NotActive))
    } else {
        (RecorderState { phase: RecorderPhase::Stopping, stop_flag: true, ..s }, Ok(()))
    }
}

/// Draining the session once the workers are joined: the buffered events
/// leave as the final batch, the slot is emptied, and the controller is
/// idle again with no runnable workers.
pub open spec fn spec_finish_stop(s: RecorderState) -> (RecorderState, Seq<
    crate::devents::DeventRequest,
>) {
    (
        RecorderState {
            store: SessionStore { slot: None },
            phase: RecorderPhase::Idle,
            encoder_worker: false,
            capture_worker: false,
            watcher_worker: false,
            ..s
        },
        s.store.slot->Some_0.events@,
    )
}

impl RecorderState {
    /// Claims the slot for the given fresh session, exactly as
    /// `spec_request_start` describes.
    pub fn request_start(&mut self, session: RecordingSession) -> (r: Result<(), RecorderError>)
        requires
            old(self).wf(),
            session.wf(),
            session.events@.len() == 0,
        ensures
            final(self).wf(),
            *final(self) == spec_request_start(*old(self), session).0,
            r == spec_request_start(*old(self), session).1,
    {
        match self.store.create(session) {
            Ok(()) => {
                self.phase = RecorderPhase::Starting;
                self.stop_flag = false;
                Ok(())
            },
            Err(e) => Err(e),
        }
    }

    /// Records that every worker is up, exactly as `spec_confirm_start`
    /// describes.
    pub fn confirm_start(&mut self)
        requires
            old(self).wf(),
            old(self).phase is Starting,
        ensures
            final(self).wf(),
            *final(self) == spec_confirm_start(*old(self)),
    {
        self.phase = RecorderPhase::Running;
        self.encoder_worker = true;
        self.capture_worker = true;
        self.watcher_worker = true;
    }

    /// Aborts a claimed start, exactly as `spec_abort_start` describes,
    /// and returns the error to surface.
    pub fn abort_start(&mut self, cause: StartFailure) -> (r: RecorderError)
        requires
            old(self).wf(),
            old(self).phase is Starting,
        ensures
            final(self).wf(),
            *final(self) == spec_abort_start(*old(self), cause).0,
            r == spec_abort_start(*old(self), cause).1,
            final(self).store.slot is None,
    {
        self.store.clear();
        self.phase = RecorderPhase::Idle;
        self.encoder_worker = false;
        self.capture_worker = false;
        self.watcher_worker = false;
        match cause {
            StartFailure::SetupIo => RecorderError::IoError,
            StartFailure::EncoderSpawn => RecorderError::EncoderUnavailable,
        }
    }

    /// Requests a stop, exactly as `spec_request_stop` describes.
    pub fn request_stop(&mut self) -> (r: Result<(), RecorderError>)
        requires
            old(self).wf(),
        ensures
            final(self).wf(),
            *final(self) == spec_request_stop(*old(self)).0,
            r == spec_request_stop(*old(self)).1,
    {
        if self.store.slot.is_some() {
            self.stop_flag = true;
            self.phase = RecorderPhase::Stopping;
            Ok(())
        } else {
            Err(RecorderError::NotActive)
        }
    }

    /// Drains the stopped session into the final batch, exactly as
    /// `spec_finish_stop` describes. Every event in the batch carries the
    /// drained session's identifier.
    pub fn finish_stop(&mut self) -> (batch: DeventRequestWrapper)
        requires
            old(self).wf(),
            old(self).phase is Stopping,
        ensures
            final(self).wf(),
            *final(self) == spec_finish_stop(*old(self)).0,
            batch.events@ == spec_finish_stop(*old(self)).1,
            final(self).store.slot is None,
            final(self).phase is Idle,
            forall|i: int|
                0 <= i < batch.events@.len() ==> (#[trigger] batch.events@[i]).session_id == old(
                    self,
                ).store.slot->Some_0.id,
    {
        let events = self.store.drain_events();
        self.store.clear();
        self.phase = RecorderPhase::Idle;
        self.encoder_worker = false;
        self.capture_worker = false;
        self.watcher_worker = false;
        DeventRequestWrapper { events }
    }

    /// Whether the cooperative stop flag is set; polled by every worker.
    pub fn stop_requested(&self) -> (r: bool)
        ensures
            r == self.stop_flag,
    {
        self.stop_flag
    }

    /// Applies the capture filter to one delivery from the OS input
    /// stream: the cached pointer position moves exactly as
    /// `spec_capture_cursor` says, and the record `spec_capture_record`
    /// describes — if there is one and a session holds the slot — is
    /// appended to the session's buffer. Phase, stop flag and worker
    /// flags are untouched.
    pub fn capture_event(
        &mut self,
        cursor: &mut CaptureState,
        ev: &OsEvent,
        now_nanos: Option<i64>,
    ) -> (recorded: bool)
        requires
            old(self).wf(),
        ensures
            final(self).wf(),
            final(self).phase == old(self).phase,
            final(self).stop_flag == old(self).stop_flag,
            final(self).encoder_worker == old(self).encoder_worker,
            final(self).capture_worker == old(self).capture_worker,
            final(self).watcher_worker == old(self).watcher_worker,
            *final(cursor) == spec_capture_cursor(
                *old(cursor),
                old(self).stop_flag,
                now_nanos,
                *ev,
            ),
            old(self).store.slot is None ==> final(self).store == old(self).store && !recorded,
            old(self).store.slot is Some ==> {
                let s = old(self).store.slot->Some_0;
                let rec = spec_capture_record(
                    *old(cursor),
                    old(self).stop_flag,
                    now_nanos,
                    *ev,
                    s.id,
                );
                final(self).store.slot is Some && {
                    let t = final(self).store.slot->Some_0;
                    t.id == s.id && t.output_dir == s.output_dir && (match rec {
                        Some(e) => recorded && t.events@ == s.events@.push(e),
                        None => !recorded && t.events@ == s.events@,
                    })
                }
            },
    {
        let session_id: u128 = match &self.store.slot {
            Some(s) => s.id,
            None => 0,
        };
        let rec = capture_step(cursor, self.stop_flag, now_nanos, ev, session_id);
        match rec {
            Some(event) => self.store.append_event(event),
            None => false,
        }
    }
}

} // verus!
