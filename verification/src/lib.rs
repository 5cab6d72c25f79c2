//! Verified core of a Dolby Vision container converter.
//!
//! The library plans and sequences the external-tool invocations that turn a
//! Dolby-Vision MKV file into an MP4 container: demux the video track,
//! extract the audio track, optionally extract subtitles, multiplex, and
//! optionally convert and merge the subtitles into a second output. The
//! actual processes are spawned by the caller; the library decides which
//! command runs next, interprets each outcome, accumulates the transcript,
//! and guarantees fail-fast batch semantics and scratch-file cleanup.

pub mod batch;
pub mod frame_rate;
pub mod pipeline;
pub mod plan;
pub mod process;
pub mod text;
