//! A verified core for a windowing/graphics/audio helper library.
//!
//! The heart of the crate is the audio subsystem: a name-keyed registry of
//! decoded sounds, a per-name playback handle with a small state machine
//! (stopped / playing / paused), and an orchestrator that routes play, pause,
//! resume, stop, volume and query requests by name.  Every function here
//! carries a contract and is verified; the host application supplies the
//! hardware output device, file decoding and the OpenGL/window plumbing, and
//! hands this crate plain values.

pub mod audio;
pub mod custom_errors;
pub mod input;
pub mod playback;
pub mod registry;
pub mod sound;
pub mod texture;
