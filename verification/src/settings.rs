//! The settings that the capture core reads.
//!
//! Where settings are stored is not this crate's business: the caller looks
//! them up and passes the values in with each call.

use vstd::prelude::*;

verus! {

/// Where audio is taken from.
#[derive(Clone, Copy, Debug, PartialEq, Eq, Structural)]
pub enum AudioSource {
    /// A physical input device.
    Microphone,
    /// Whatever the operating system is playing.
    SystemAudio,
}

/// Whether the capture stream stays open between recordings.
#[derive(Clone, Copy, Debug, PartialEq, Eq, Structural)]
pub enum MicrophoneMode {
    /// The stream is opened once and kept open.
    AlwaysOn,
    /// The stream is opened for each recording and closed after it.
    OnDemand,
}

/// The stored source, or the microphone when none is stored.
pub fn effective_source(stored: Option<AudioSource>) -> (source: AudioSource)
    ensures
        source == match stored {
            Some(s) => s,
            None => AudioSource::Microphone,
        },
{
    match stored {
        Some(s) => s,
        None => AudioSource::Microphone,
    }
}

/// The mode that the always-on setting stands for.
pub fn mode_for(always_on: bool) -> (mode: MicrophoneMode)
    ensures
        mode == if always_on {
            MicrophoneMode::AlwaysOn
        } else {
            MicrophoneMode::OnDemand
        },
{
    if always_on {
        MicrophoneMode::AlwaysOn
    } else {
        MicrophoneMode::OnDemand
    }
}

/// The settings consulted while a stream is opened or switched.
#[derive(Clone, Copy, Debug, PartialEq, Eq, Structural)]
pub struct CaptureSettings {
    /// The stored always-on flag.
    pub always_on_microphone: bool,
    /// The source in force.
    pub audio_source: AudioSource,
    /// Whether system output is muted while a recording runs.
    pub mute_while_recording: bool,
}

impl CaptureSettings {
    /// Whether these settings call for continuous transcription of system
    /// audio: always on, and the source is system audio.
    pub open spec fn continuous(self) -> bool {
        self.always_on_microphone && self.audio_source == AudioSource::SystemAudio
    }

    /// Whether these settings call for continuous transcription of system audio.
    pub fn is_continuous(&self) -> (yes: bool)
        ensures
            yes == self.continuous(),
    {
        self.always_on_microphone && self.audio_source == AudioSource::SystemAudio
    }
}

} // verus!
