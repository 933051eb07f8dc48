//! Verified core of a loopback audio capture tool.
//!
//! The library holds the logic of the tool: the two-state recording
//! lifecycle, the sample buffer that the capture loop fills, the format
//! descriptor of the captured stream, the sample decoding rules, the WAV
//! container encoder, and the decision logic of the capture engine.
//! The platform audio session, the operator console and the file system
//! live outside, in the surrounding application.

pub mod buffer;
pub mod clock;
pub mod engine;
pub mod format;
pub mod session;
pub mod samples;
pub mod state;
pub mod wav;
