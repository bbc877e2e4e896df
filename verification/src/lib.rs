//! Real-time audio capture and segmentation core for a speech-to-text
//! pipeline.
//!
//! Everything here works on plain values. Samples are kept in a generic
//! element type so that callers decide on the numeric representation; device
//! access, child processes and timers are driven by the caller, which feeds
//! what it observed into the state machines of this crate and carries out
//! the actions they answer with.

pub mod buffer;
pub mod commands;
pub mod devices;
pub mod diagnostics;
pub mod error;
pub mod frames;
pub mod helper;
pub mod manager;
pub mod permissions;
pub mod recorder;
pub mod resampler;
pub mod screencapturekit;
pub mod segment;
pub mod selector;
pub mod settings;
pub mod system_audio;
pub mod system_audio_macos;
pub mod system_audio_windows;
pub mod text;
pub mod transcription;
pub mod vad;
pub mod window;
