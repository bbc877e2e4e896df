//! What the user-facing commands compute.
//!
//! The commands themselves read and write settings and talk to the
//! recording manager. The values that pass through them are shaped here:
//! device lists with their default entry, the stored form of a selection,
//! the names of sources and sounds, and the status report.

use crate::settings::AudioSource;
use vstd::prelude::*;
use vstd::string::StringExecFns;

verus! {

/// Which custom sounds the user has installed.
#[derive(Clone, Copy, Debug, PartialEq, Eq, Structural)]
pub struct CustomSounds {
    /// A custom start sound exists.
    pub start: bool,
    /// A custom stop sound exists.
    pub stop: bool,
}

/// The sound played when a recording starts or stops.
#[derive(Clone, Copy, Debug, PartialEq, Eq, Structural)]
pub enum SoundType {
    /// Played when a recording starts.
    Start,
    /// Played when a recording stops.
    Stop,
}

/// The name under which a sound is asked for.
pub open spec fn sound_name(sound: SoundType) -> Seq<char> {
    match sound {
        SoundType::Start => "start"@,
        SoundType::Stop => "stop"@,
    }
}

/// The file, within the application's data directory, that holds the
/// custom sound: `custom_`, the sound's name, `.wav`.
pub fn custom_sound_file(sound: SoundType) -> (file: String)
    ensures
        file@ == "custom_"@ + sound_name(sound) + ".wav"@,
{
    let name = match sound {
        SoundType::Start => "start",
        SoundType::Stop => "stop",
    };
    "custom_".to_owned().concat(name).concat(".wav")
}

/// Puts together which custom sounds exist.
pub fn check_custom_sounds(start_exists: bool, stop_exists: bool) -> (sounds: CustomSounds)
    ensures
        sounds == (CustomSounds { start: start_exists, stop: stop_exists }),
{
    CustomSounds { start: start_exists, stop: stop_exists }
}

/// The sound that `name` asks for: `start` or `stop`, nothing else.
pub fn play_test_sound(name: &str) -> (sound: Option<SoundType>)
    ensures
        sound == if name@ == "start"@ {
            Some(SoundType::Start)
        } else if name@ == "stop"@ {
            Some(SoundType::Stop)
        } else {
            None
        },
{
    let asked = name.to_owned();
    if asked == "start".to_owned() {
        Some(SoundType::Start)
    } else if asked == "stop".to_owned() {
        Some(SoundType::Stop)
    } else {
        None
    }
}

/// A device as the operating system lists it.
#[derive(Clone, Debug)]
pub struct DeviceInfo {
    /// Position in the listing, as text.
    pub index: String,
    /// The name, which is what a selection stores.
    pub name: String,
}

/// A device as it is offered to the user.
#[derive(Clone, Debug)]
pub struct AudioDevice {
    /// Position in the listing, or `default`.
    pub index: String,
    /// The name shown and stored.
    pub name: String,
    /// Whether this entry stands for the default device of the system.
    pub is_default: bool,
}

impl AudioDevice {
    /// The entry that stands for the default device of the system.
    pub open spec fn is_default_entry(self) -> bool {
        &&& self.index@ == "default"@
        &&& self.name@ == "Default"@
        &&& self.is_default
    }

    /// The entry offers `device`.
    pub open spec fn offers(self, device: DeviceInfo) -> bool {
        &&& self.index@ == device.index@
        &&& self.name@ == device.name@
        &&& !self.is_default
    }
}

/// The devices offered to the user: the default entry first, then every
/// listed device in its order. Serves input and output devices alike.
pub fn get_available_devices(listed: &Vec<DeviceInfo>) -> (offered: Vec<AudioDevice>)
    ensures
        offered@.len() == listed@.len() + 1,
        offered@[0].is_default_entry(),
        forall|i: int| 0 <= i < listed@.len() ==> (#[trigger] offered@[i + 1]).offers(listed@[i]),
{
    let mut offered: Vec<AudioDevice> = Vec::new();
    offered.push(
        AudioDevice { index: "default".to_owned(), name: "Default".to_owned(), is_default: true },
    );
    let mut i: usize = 0;
    while i < listed.len()
        invariant
            i <= listed@.len(),
            offered@.len() == i + 1,
            offered@[0].is_default_entry(),
            forall|j: int| 0 <= j < i ==> (#[trigger] offered@[j + 1]).offers(listed@[j]),
        decreases listed@.len() - i,
    {
        let device = &listed[i];
        offered.push(
            AudioDevice { index: device.index.clone(), name: device.name.clone(), is_default: false },
        );
        i = i + 1;
    }
    offered
}

/// What is stored for a selection: nothing for `default`, else the name.
/// Serves the microphone, the clamshell microphone and the output device.
pub fn selection_to_store(device_name: String) -> (stored: Option<String>)
    ensures
        device_name@ == "default"@ ==> stored is None,
        device_name@ != "default"@ ==> stored == Some(device_name),
{
    if device_name == "default".to_owned() {
        None
    } else {
        Some(device_name)
    }
}

/// The name reported for a stored selection: `default` if none is stored.
pub fn stored_selection_name(stored: Option<String>) -> (device_name: String)
    ensures
        device_name@ == match stored {
            Some(name) => name@,
            None => "default"@,
        },
{
    match stored {
        Some(name) => name,
        None => "default".to_owned(),
    }
}

/// The source that `name` stands for: `microphone` or `system_audio`;
/// any other name stores no source.
pub fn set_audio_source(name: &str) -> (source: Option<AudioSource>)
    ensures
        source == if name@ == "microphone"@ {
            Some(AudioSource::Microphone)
        } else if name@ == "system_audio"@ {
            Some(AudioSource::SystemAudio)
        } else {
            None
        },
{
    let asked = name.to_owned();
    if asked == "microphone".to_owned() {
        Some(AudioSource::Microphone)
    } else if asked == "system_audio".to_owned() {
        Some(AudioSource::SystemAudio)
    } else {
        None
    }
}

/// The name of the stored source; the microphone if none is stored.
pub fn get_audio_source(stored: Option<AudioSource>) -> (name: String)
    ensures
        name@ == match stored {
            Some(AudioSource::SystemAudio) => "system_audio"@,
            _ => "microphone"@,
        },
{
    match stored {
        Some(AudioSource::SystemAudio) => "system_audio".to_owned(),
        _ => "microphone".to_owned(),
    }
}

/// The state of system-audio capture as the user interface shows it.
#[derive(Clone, Debug)]
pub struct SystemAudioStatus {
    /// `unknown`, `granted` or `denied`.
    pub permission: String,
    /// `unknown`, `active`, `error` or `not_initialized`.
    pub capture: String,
    /// `unknown`, `active` or `waiting`.
    pub audio_detection: String,
}

/// The status report.
///
/// `manager` is what the recording manager says (whether a stream is open,
/// whether samples are waiting), or `None` if there is no manager. An open
/// stream shows that the permission was granted; a closed one shows
/// nothing.
pub fn get_system_audio_status(manager: Option<(bool, bool)>) -> (status: SystemAudioStatus)
    ensures
        status.permission@ == match manager {
            Some((true, _)) => "granted"@,
            _ => "unknown"@,
        },
        status.capture@ == match manager {
            Some((true, _)) => "active"@,
            Some((false, _)) => "unknown"@,
            None => "not_initialized"@,
        },
        status.audio_detection@ == match manager {
            Some((true, true)) => "active"@,
            Some((true, false)) => "waiting"@,
            _ => "unknown"@,
        },
{
    match manager {
        None => SystemAudioStatus {
            permission: "unknown".to_owned(),
            capture: "not_initialized".to_owned(),
            audio_detection: "unknown".to_owned(),
        },
        Some((false, _)) => SystemAudioStatus {
            permission: "unknown".to_owned(),
            capture: "unknown".to_owned(),
            audio_detection: "unknown".to_owned(),
        },
        Some((true, has_audio)) => SystemAudioStatus {
            permission: "granted".to_owned(),
            capture: "active".to_owned(),
            audio_detection: if has_audio {
                "active".to_owned()
            } else {
                "waiting".to_owned()
            },
        },
    }
}

/// Whether audio was set up when the application started.
#[derive(Clone, Copy, Debug, PartialEq, Eq, Structural)]
pub enum Initialization {
    /// The recording manager exists.
    Initialized,
    /// There is no manager although system audio was asked for: the user
    /// has to set capture up, and is to be told so.
    SetupRequired,
    /// There is no manager and none was needed for system audio.
    NotRequired,
}

impl Initialization {
    /// The word under which the state is reported.
    pub open spec fn word(self) -> Seq<char> {
        match self {
            Initialization::Initialized => "initialized"@,
            Initialization::SetupRequired => "setup_required"@,
            Initialization::NotRequired => "not_required"@,
        }
    }

    /// The word under which the state is reported.
    pub fn name(&self) -> (name: String)
        ensures
            name@ == self.word(),
    {
        match self {
            Initialization::Initialized => "initialized".to_owned(),
            Initialization::SetupRequired => "setup_required".to_owned(),
            Initialization::NotRequired => "not_required".to_owned(),
        }
    }
}

/// Whether audio was set up, from whether the manager exists and which
/// source is stored.
pub fn check_audio_initialization_status(has_manager: bool, stored: Option<AudioSource>) -> (state:
    Initialization)
    ensures
        state == if has_manager {
            Initialization::Initialized
        } else if stored == Some(AudioSource::SystemAudio) {
            Initialization::SetupRequired
        } else {
            Initialization::NotRequired
        },
{
    if has_manager {
        Initialization::Initialized
    } else {
        match stored {
            Some(AudioSource::SystemAudio) => Initialization::SetupRequired,
            _ => Initialization::NotRequired,
        }
    }
}

} // verus!
