//! Playback synchronization engine for a clip-based video editor.
//!
//! The engine keeps two independently paced decoding pipelines — one
//! producing raw PCM audio, one producing raw RGBA video frames — aligned
//! to a single master clock that advances only as audio samples are
//! delivered to the output device.  The modules below hold the bounded
//! audio ring buffer with backpressure, the master clock, the audio
//! output fill with interval masking, the video pacer with its frame-drop
//! policy, the startup readiness barrier, the single-slot frame handoff
//! cell, and the playback controller state machine, together with the
//! timeline types (clips, fades) and the parsers for the probe output
//! that configures a session.

pub mod barrier;
pub mod cell;
pub mod clips;
pub mod clock;
pub mod controller;
pub mod decode;
pub mod filters;
pub mod i18n;
pub mod intervals;
pub mod output;
pub mod pacer;
pub mod preview;
pub mod probe;
pub mod render;
pub mod ring;
pub mod samples;
pub mod timebase;
