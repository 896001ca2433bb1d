//! Session layout of the standalone cursor-tracking tool that sits beside
//! the engine: one timestamped directory per run, holding the recording,
//! the extracted frames and the cursor-sample CSV. The offline recording
//! and visualization passes themselves are I/O driven and live outside the
//! library; only the layout is modelled here.

use vstd::prelude::*;

use crate::host;

verus! {

/// One tracker run's directory and derived file locations.
pub struct CursorTracker {
    pub session_dir: String,
}

impl CursorTracker {
    /// A tracker session under `output/<timestamp>`, the timestamp taken
    /// from the wall clock.
    pub fn new() -> (r: CursorTracker)
        ensures
            exists|ts: Seq<char>| r.session_dir@ == "output/"@ + ts,
    {
        let timestamp = host::now_compact_timestamp();
        let mut session_dir = String::from_str("output/");
        session_dir.append(timestamp.as_str());
        proof {
            assert(session_dir@ == "output/"@ + timestamp@);
        }
        CursorTracker { session_dir }
    }

    /// A tracker session over an existing directory.
    pub fn from_dir(session_dir: String) -> (r: CursorTracker)
        ensures
            r.session_dir@ == session_dir@,
    {
        CursorTracker { session_dir }
    }

    /// The recorded video file of this session.
    pub fn video_path(&self) -> (r: String)
        ensures
            r@ == self.session_dir@ + "/recording.mkv"@,
    {
        let mut r = self.session_dir.clone();
        r.append("/recording.mkv");
        r
    }

    /// The directory of frames extracted from the recording.
    pub fn frames_dir(&self) -> (r: String)
        ensures
            r@ == self.session_dir@ + "/frames"@,
    {
        let mut r = self.session_dir.clone();
        r.append("/frames");
        r
    }

    /// The CSV of cursor samples taken during the recording.
    pub fn devent_path(&self) -> (r: String)
        ensures
            r@ == self.session_dir@ + "/devents.csv"@,
    {
        let mut r = self.session_dir.clone();
        r.append("/devents.csv");
        r
    }
}

} // verus!
