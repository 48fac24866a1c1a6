//! Core of a hotkey-driven voice-capture utility: a session state machine
//! that cycles Idle -> Recording -> Processing -> Idle, a sample buffer fed
//! by the capture callback, channel derivation and payload assembly for the
//! encoder, and the decision logic of the transcription upload.
//!
//! Everything that touches hardware, the network or the window system lives
//! outside this crate; the functions here take and return plain values.

pub mod buffer;
pub mod encoder;
pub mod errors;
pub mod notify;
pub mod session;
pub mod transcribe;
