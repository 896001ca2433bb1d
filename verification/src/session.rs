//! The recording session and the single-slot session store.
//!
//! A session is identified by a fresh 128-bit identifier, owns a
//! timestamped output directory with a `recordings/` subdirectory for the
//! encoder's segments, and buffers the recorded input events in order. The
//! store is a process-wide single slot: creating a session fails while the
//! slot is occupied, so at most one session exists at any instant.

use vstd::prelude::*;

use crate::devents::DeventRequest;
use crate::host;

verus! {

/// The errors the session lifecycle surfaces to its caller. Network and
/// per-event failures are deliberately absent: those are logged and
/// recovered by the surrounding process, never surfaced.
#[derive(Clone, Copy, Debug, PartialEq, Eq)]
pub enum RecorderError {
    /// A session already occupies the store slot.
    AlreadyActive,
    /// Stop was requested with no session in the slot.
    NotActive,
    /// The external encoder could not be spawned.
    EncoderUnavailable,
    /// Directory or file setup failed.
    IoError,
}

/// One recording session: identity, output directory and the ordered
/// in-memory buffer of recorded input events.
pub struct RecordingSession {
    pub id: u128,
    pub events: Vec<DeventRequest>,
    pub output_dir: String,
}

impl RecordingSession {
    /// Every buffered event carries this session's identifier.
    pub open spec fn wf(self) -> bool {
        forall|i: int|
            0 <= i < self.events@.len() ==> (#[trigger] self.events@[i]).session_id == self.id
    }

    /// A session assembled from its parts, with an empty event buffer. The
    /// output directory is `<app data dir>/output/<timestamp>`.
    pub fn from_parts(id: u128, app_data_dir: &str, timestamp: &str) -> (r: RecordingSession)
        ensures
            r.id == id,
            r.events@.len() == 0,
            r.output_dir@ == app_data_dir@ + "/output/"@ + timestamp@,
            r.wf(),
    {
        let mut output_dir = String::from_str(app_data_dir);
        output_dir.append("/output/");
        output_dir.append(timestamp);
        RecordingSession { id, events: Vec::new(), output_dir }
    }

    /// A fresh session: new random identifier, output directory named by
    /// the current wall-clock instant. The directories themselves are
    /// created by the caller before any capture starts.
    pub fn new(app_data_dir: &str) -> (r: RecordingSession)
        ensures
            r.events@.len() == 0,
            r.wf(),
            exists|ts: Seq<char>| r.output_dir@ == app_data_dir@ + "/output/"@ + ts,
    {
        let id = host::fresh_uuid();
        let timestamp = host::now_compact_timestamp();
        let r = Self::from_parts(id, app_data_dir, timestamp.as_str());
        proof {
            assert(r.output_dir@ == app_data_dir@ + "/output/"@ + timestamp@);
        }
        r
    }

    /// The directory that receives the encoder's video segments.
    pub fn video_path(&self) -> (r: String)
        ensures
            r@ == self.output_dir@ + "/recordings"@,
    {
        let mut r = self.output_dir.clone();
        r.append("/recordings");
        r
    }

    /// The printf-style segment file pattern handed to the encoder.
    pub fn chunk_pattern_path(&self) -> (r: String)
        ensures
            r@ == self.output_dir@ + "/recordings/chunk_%04d.mkv"@,
    {
        let mut r = self.output_dir.clone();
        r.append("/recordings/chunk_%04d.mkv");
        r
    }

    /// The CSV segment-list file the encoder maintains.
    pub fn segment_csv_path(&self) -> (r: String)
        ensures
            r@ == self.output_dir@ + "/segments.csv"@,
    {
        let mut r = self.output_dir.clone();
        r.append("/segments.csv");
        r
    }

    /// The companion per-frame timestamp track.
    pub fn timestamp_path(&self) -> (r: String)
        ensures
            r@ == self.output_dir@ + "/timestamps.txt"@,
    {
        let mut r = self.output_dir.clone();
        r.append("/timestamps.txt");
        r
    }
}

/// The process-wide single-slot holder of the active session.
pub struct SessionStore {
    pub slot: Option<RecordingSession>,
}

impl SessionStore {
    /// The slot, when occupied, holds a well-formed session.
    pub open spec fn wf(self) -> bool {
        self.slot is Some ==> self.slot->Some_0.wf()
    }

    /// An empty store.
    pub fn new() -> (r: SessionStore)
        ensures
            r.slot is None,
            r.wf(),
    {
        SessionStore { slot: None }
    }

    /// Puts a session into the slot. Fails with `AlreadyActive`, leaving
    /// the occupant untouched, if and only if the slot is occupied.
    pub fn create(&mut self, session: RecordingSession) -> (r: Result<(), RecorderError>)
        requires
            old(self).wf(),
            session.wf(),
        ensures
            old(self).slot is Some ==> r == Result::<(), RecorderError>::Err(
                RecorderError::AlreadyActive,
            ) && *final(self) == *old(self),
            old(self).slot is None ==> r is Ok && final(self).slot == Some(session),
            final(self).wf(),
    {
        if self.slot.is_some() {
            Err(RecorderError::AlreadyActive)
        } else {
            self.slot = Some(session);
            Ok(())
        }
    }

    /// Appends one recorded event to the active session's buffer; reports
    /// whether a session was there to take it. Everything else about the
    /// session is untouched.
    pub fn append_event(&mut self, event: DeventRequest) -> (appended: bool)
        requires
            old(self).wf(),
            old(self).slot is Some ==> event.session_id == old(self).slot->Some_0.id,
        ensures
            final(self).wf(),
            old(self).slot is None ==> !appended && *final(self) == *old(self),
            old(self).slot is Some ==> appended && final(self).slot is Some && {
                let s = old(self).slot->Some_0;
                let t = final(self).slot->Some_0;
                t.id == s.id && t.output_dir == s.output_dir && t.events@ == s.events@.push(event)
            },
    {
        match &mut self.slot {
            Some(session) => {
                session.events.push(event);
                true
            },
            None => false,
        }
    }

    /// Moves the buffered events out, leaving an empty buffer behind. An
    /// empty store yields no events and is untouched.
    pub fn drain_events(&mut self) -> (events: Vec<DeventRequest>)
        requires
            old(self).wf(),
        ensures
            final(self).wf(),
            old(self).slot is None ==> events@.len() == 0 && *final(self) == *old(self),
            old(self).slot is Some ==> final(self).slot is Some && {
                let s = old(self).slot->Some_0;
                let t = final(self).slot->Some_0;
                events@ == s.events@ && t.id == s.id && t.output_dir == s.output_dir
                    && t.events@.len() == 0
            },
            forall|i: int|
                0 <= i < events@.len() ==> (#[trigger] events@[i]).session_id == old(
                    self,
                ).slot->Some_0.id,
    {
        match &mut self.slot {
            Some(session) => {
                let mut taken: Vec<DeventRequest> = Vec::new();
                core::mem::swap(&mut taken, &mut session.events);
                taken
            },
            None => Vec::new(),
        }
    }

    /// Empties the slot.
    pub fn clear(&mut self)
        ensures
            final(self).slot is None,
            final(self).wf(),
    {
        self.slot = None;
    }
}

} // verus!
