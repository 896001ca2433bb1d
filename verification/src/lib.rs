//! Core of a desktop input-and-screen capture engine.
//!
//! A recording session drives an external screen encoder that writes
//! fixed-duration video segments, intercepts global keyboard, mouse-button
//! and scroll-wheel events, watches the segment directory for completed
//! segments to hand to an uploader, and batches the captured input events
//! for a final submission when the session stops.
//!
//! This crate holds the verified core: the session store and its
//! single-slot discipline, the start/stop lifecycle of the recorder, the
//! deterministic filter that turns raw OS input into recorded events, the
//! segment-watcher watermark logic, the encoder command line, and the wire
//! encoding of every request body. The surrounding process plumbing
//! (threads, the encoder subprocess, HTTP) lives outside the library and
//! only calls these functions.

pub mod capture;
pub mod devents;
pub mod ffmpeg;
pub mod host;
pub mod json;
pub mod laws;
pub mod recorder;
pub mod session;
pub mod text;
pub mod tracker;
pub mod watcher;
