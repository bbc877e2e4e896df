use capture_core::error::CaptureError;
use capture_core::manager::AudioRecordingManager;
use capture_core::manager::DeviceSwitch;
use capture_core::manager::ModeUpdate;
use capture_core::manager::RecordingState;
use capture_core::manager::StartOutcome;
use capture_core::manager::StopOutcome;
use capture_core::manager::StreamClose;
use capture_core::manager::StreamReady;
use capture_core::manager::StreamStart;
use capture_core::segment::pad_short_segment;
use capture_core::settings::effective_source;
use capture_core::settings::mode_for;
use capture_core::settings::AudioSource;
use capture_core::settings::CaptureSettings;
use capture_core::settings::MicrophoneMode;

fn settings(always_on: bool, source: AudioSource) -> CaptureSettings {
    CaptureSettings { always_on_microphone: always_on, audio_source: source, mute_while_recording: true }
}

fn open_manager(always_on: bool, source: AudioSource) -> AudioRecordingManager {
    let (mut manager, _) = AudioRecordingManager::new(always_on);
    let settings = settings(always_on, source);
    assert_eq!(manager.start_microphone_stream(&settings), StreamStart::Open(source));
    assert!(manager.stream_opened(&settings, Ok(())).is_ok());
    manager
}

fn session(manager: &AudioRecordingManager) -> Option<String> {
    match manager.state() {
        RecordingState::Idle => None,
        RecordingState::Recording { binding_id } => Some(binding_id.clone()),
    }
}

#[test]
fn manager_starts_idle_and_closed() {
    let (manager, open_now) = AudioRecordingManager::new(false);
    assert!(!open_now);
    assert_eq!(manager.mode(), MicrophoneMode::OnDemand);
    assert!(!manager.is_open());
    assert!(!manager.is_recording());
    assert!(!manager.did_mute());
    assert!(!manager.is_switching());
    assert!(session(&manager).is_none());
    let (manager, open_now) = AudioRecordingManager::new(true);
    assert!(open_now);
    assert_eq!(manager.mode(), MicrophoneMode::AlwaysOn);
    assert!(!manager.is_open());
}

#[test]
fn settings_default_to_the_microphone() {
    assert_eq!(effective_source(None), AudioSource::Microphone);
    assert_eq!(effective_source(Some(AudioSource::SystemAudio)), AudioSource::SystemAudio);
    assert_eq!(effective_source(Some(AudioSource::Microphone)), AudioSource::Microphone);
    assert_eq!(mode_for(true), MicrophoneMode::AlwaysOn);
    assert_eq!(mode_for(false), MicrophoneMode::OnDemand);
    assert!(settings(true, AudioSource::SystemAudio).is_continuous());
    assert!(!settings(false, AudioSource::SystemAudio).is_continuous());
    assert!(!settings(true, AudioSource::Microphone).is_continuous());
}

#[test]
fn open_stream_is_not_opened_twice() {
    let settings = settings(true, AudioSource::Microphone);
    let mut manager = open_manager(true, AudioSource::Microphone);
    assert_eq!(manager.start_microphone_stream(&settings), StreamStart::AlreadyOpen { resumed: false });
    assert_eq!(manager.start_microphone_stream(&settings), StreamStart::AlreadyOpen { resumed: false });
    assert!(manager.is_open());
    assert!(!manager.is_recording());
}

#[test]
fn start_on_open_stream_opens_nothing() {
    let mut manager = open_manager(true, AudioSource::Microphone);
    assert_eq!(manager.try_start_recording("transcribe"), StartOutcome::Started);
    assert_eq!(session(&manager).unwrap(), "transcribe");
    // A second start finds the first one running and changes nothing.
    assert_eq!(manager.try_start_recording("other"), StartOutcome::AlreadyRecording);
    assert_eq!(session(&manager).unwrap(), "transcribe");
    assert!(manager.is_open());
    // After a stop the next start succeeds again on the same stream.
    assert_eq!(manager.stop_recording("transcribe"), StopOutcome::Stopped(None));
    assert_eq!(manager.try_start_recording("other"), StartOutcome::Started);
    assert_eq!(session(&manager).unwrap(), "other");
    assert!(manager.is_open());
}

#[test]
fn stale_stop_is_ignored() {
    let mut manager = open_manager(true, AudioSource::Microphone);
    assert_eq!(manager.stop_recording("a"), StopOutcome::Ignored);
    assert_eq!(manager.try_start_recording("a"), StartOutcome::Started);
    assert_eq!(manager.stop_recording("b"), StopOutcome::Ignored);
    assert_eq!(manager.stop_recording(""), StopOutcome::Ignored);
    assert_eq!(manager.stop_recording("a "), StopOutcome::Ignored);
    assert!(manager.is_recording());
    assert_eq!(session(&manager).unwrap(), "a");
    assert_eq!(manager.stop_recording("a"), StopOutcome::Stopped(None));
    assert!(!manager.is_recording());
    assert_eq!(manager.stop_recording("a"), StopOutcome::Ignored);
}

#[test]
fn on_demand_recording_pads_and_closes() {
    let settings = settings(false, AudioSource::Microphone);
    let (mut manager, open_now) = AudioRecordingManager::new(false);
    assert!(!open_now);
    // Nothing is open yet: the stream has to be opened first.
    assert_eq!(manager.try_start_recording("ptt"), StartOutcome::NeedsStream);
    assert!(!manager.is_recording());
    assert_eq!(manager.start_microphone_stream(&settings), StreamStart::Open(AudioSource::Microphone));
    assert_eq!(manager.stream_opened(&settings, Ok(())), Ok(StreamReady { auto_transcribe: false }));
    assert_eq!(manager.try_start_recording("ptt"), StartOutcome::Started);
    assert!(manager.apply_mute(settings.mute_while_recording));
    // 0.8 seconds arrive while recording.
    let captured: Vec<f32> = vec![0.1; 12800];
    let outcome = manager.stop_recording("ptt");
    assert_eq!(outcome, StopOutcome::Stopped(Some(StreamClose { unmute: true, was_recording: false })));
    let segment = pad_short_segment(captured, 0.0);
    assert_eq!(segment.len(), 20000);
    assert!(segment[..12800].iter().all(|s| *s == 0.1));
    assert!(segment[12800..].iter().all(|s| *s == 0.0));
    assert!(!manager.is_open());
    assert!(!manager.is_recording());
    assert!(!manager.did_mute());
}

#[test]
fn failed_open_leaves_everything_closed() {
    let settings = settings(false, AudioSource::SystemAudio);
    let (mut manager, _) = AudioRecordingManager::new(false);
    assert_eq!(manager.start_microphone_stream(&settings), StreamStart::Open(AudioSource::SystemAudio));
    for error in [
        CaptureError::PermissionDenied,
        CaptureError::DeviceNotFound,
        CaptureError::FormatUnsupported,
        CaptureError::Unavailable,
    ] {
        assert_eq!(manager.stream_opened(&settings, Err(error)), Err(error));
        assert!(!manager.is_open());
        assert!(!manager.is_recording());
        assert_eq!(manager.try_start_recording("ptt"), StartOutcome::NeedsStream);
    }
}

#[test]
fn always_on_without_stream_cannot_record() {
    let (mut manager, _) = AudioRecordingManager::new(true);
    assert_eq!(manager.try_start_recording("x"), StartOutcome::Unavailable);
    assert!(!manager.is_recording());
}

#[test]
fn continuous_transcription_starts_with_the_stream() {
    let settings = settings(true, AudioSource::SystemAudio);
    let (mut manager, _) = AudioRecordingManager::new(true);
    assert_eq!(manager.start_microphone_stream(&settings), StreamStart::Open(AudioSource::SystemAudio));
    assert_eq!(manager.stream_opened(&settings, Ok(())), Ok(StreamReady { auto_transcribe: true }));
    assert_eq!(session(&manager).unwrap(), "transcribe");
    // Asking again opens nothing and resumes nothing.
    assert_eq!(manager.start_microphone_stream(&settings), StreamStart::AlreadyOpen { resumed: false });
    // Once the recording has stopped, asking again resumes it.
    assert_eq!(manager.cancel_recording(), StopOutcome::Stopped(None));
    assert_eq!(manager.start_microphone_stream(&settings), StreamStart::AlreadyOpen { resumed: true });
    assert_eq!(session(&manager).unwrap(), "transcribe");
}

#[test]
fn cancel_ends_any_recording() {
    let mut manager = open_manager(false, AudioSource::Microphone);
    assert_eq!(manager.cancel_recording(), StopOutcome::Ignored);
    assert!(manager.is_open());
    assert_eq!(manager.try_start_recording("a"), StartOutcome::Started);
    assert_eq!(
        manager.cancel_recording(),
        StopOutcome::Stopped(Some(StreamClose { unmute: false, was_recording: false }))
    );
    assert!(!manager.is_open());
    assert!(!manager.is_recording());
}

#[test]
fn stop_stream_ends_the_recording_and_the_mute() {
    let mut manager = open_manager(true, AudioSource::Microphone);
    assert_eq!(manager.stop_microphone_stream(), Some(StreamClose { unmute: false, was_recording: false }));
    assert_eq!(manager.stop_microphone_stream(), None);
    let mut manager = open_manager(true, AudioSource::Microphone);
    assert_eq!(manager.try_start_recording("a"), StartOutcome::Started);
    assert!(manager.apply_mute(true));
    assert!(manager.did_mute());
    assert_eq!(manager.stop_microphone_stream(), Some(StreamClose { unmute: true, was_recording: true }));
    assert!(!manager.is_open());
    assert!(!manager.is_recording());
    assert!(!manager.did_mute());
}

#[test]
fn mute_needs_the_setting_and_an_open_stream() {
    let (mut manager, _) = AudioRecordingManager::new(false);
    assert!(!manager.apply_mute(true));
    assert!(!manager.remove_mute());
    let mut manager = open_manager(false, AudioSource::Microphone);
    assert!(!manager.apply_mute(false));
    assert!(!manager.did_mute());
    assert!(manager.apply_mute(true));
    assert!(manager.did_mute());
    assert!(manager.remove_mute());
    assert!(!manager.remove_mute());
    assert!(!manager.did_mute());
}

#[test]
fn mode_changes_follow_the_stream() {
    // Leaving always-on while idle closes the stream.
    let mut manager = open_manager(true, AudioSource::Microphone);
    assert_eq!(
        manager.update_mode(MicrophoneMode::OnDemand),
        ModeUpdate::Switched(Some(StreamClose { unmute: false, was_recording: false }))
    );
    assert_eq!(manager.mode(), MicrophoneMode::OnDemand);
    assert!(!manager.is_open());
    // Entering always-on needs a stream.
    assert_eq!(manager.update_mode(MicrophoneMode::AlwaysOn), ModeUpdate::NeedsStream);
    assert_eq!(manager.mode(), MicrophoneMode::OnDemand);
    let settings = settings(true, AudioSource::Microphone);
    assert_eq!(manager.start_microphone_stream(&settings), StreamStart::Open(AudioSource::Microphone));
    assert!(manager.stream_opened(&settings, Ok(())).is_ok());
    assert_eq!(manager.update_mode(MicrophoneMode::AlwaysOn), ModeUpdate::Switched(None));
    assert_eq!(manager.mode(), MicrophoneMode::AlwaysOn);
    assert_eq!(manager.update_mode(MicrophoneMode::AlwaysOn), ModeUpdate::Switched(None));
    // Leaving always-on while recording keeps the stream until the stop.
    assert_eq!(manager.try_start_recording("a"), StartOutcome::Started);
    assert_eq!(manager.update_mode(MicrophoneMode::OnDemand), ModeUpdate::Switched(None));
    assert!(manager.is_open());
    assert_eq!(
        manager.stop_recording("a"),
        StopOutcome::Stopped(Some(StreamClose { unmute: false, was_recording: false }))
    );
    assert!(!manager.is_open());
}

#[test]
fn device_switch_is_one_at_a_time() {
    let settings = settings(true, AudioSource::SystemAudio);
    let (mut manager, _) = AudioRecordingManager::new(true);
    assert_eq!(manager.update_selected_device(), DeviceSwitch::NothingOpen);
    assert!(!manager.is_switching());
    assert_eq!(manager.start_microphone_stream(&settings), StreamStart::Open(AudioSource::SystemAudio));
    assert!(manager.stream_opened(&settings, Ok(())).is_ok());
    assert_eq!(
        manager.update_selected_device(),
        DeviceSwitch::Restart(StreamClose { unmute: false, was_recording: true })
    );
    assert!(manager.is_switching());
    assert!(!manager.is_open());
    // A second request while the first is under way waits and looks again.
    assert_eq!(manager.update_selected_device(), DeviceSwitch::InFlight);
    assert!(!manager.recheck_after_switch(&settings));
    assert_eq!(manager.start_microphone_stream(&settings), StreamStart::Open(AudioSource::SystemAudio));
    assert_eq!(manager.stream_opened(&settings, Ok(())), Ok(StreamReady { auto_transcribe: true }));
    assert!(!manager.recheck_after_switch(&settings));
    manager.finish_switch();
    assert!(!manager.is_switching());
    assert!(manager.is_open());
    assert!(manager.is_recording());
    // The guard is released after a failed restart as well.
    assert!(matches!(manager.update_selected_device(), DeviceSwitch::Restart(_)));
    assert_eq!(manager.start_microphone_stream(&settings), StreamStart::Open(AudioSource::SystemAudio));
    assert_eq!(manager.stream_opened(&settings, Err(CaptureError::Unavailable)), Err(CaptureError::Unavailable));
    manager.finish_switch();
    assert!(!manager.is_switching());
    assert_eq!(manager.update_selected_device(), DeviceSwitch::NothingOpen);
}

#[test]
fn recheck_resumes_continuous_transcription() {
    let settings = settings(true, AudioSource::SystemAudio);
    let mut manager = open_manager(true, AudioSource::SystemAudio);
    assert!(manager.is_recording());
    assert_eq!(manager.stop_recording("transcribe"), StopOutcome::Stopped(None));
    assert!(manager.recheck_after_switch(&settings));
    assert_eq!(session(&manager).unwrap(), "transcribe");
    assert!(!manager.recheck_after_switch(&settings));
}

#[test]
fn status_reports_open_stream_and_waiting_samples() {
    let (manager, _) = AudioRecordingManager::new(true);
    assert_eq!(manager.get_system_audio_status(100), (false, false));
    let manager = open_manager(true, AudioSource::SystemAudio);
    assert_eq!(manager.get_system_audio_status(0), (true, false));
    assert_eq!(manager.get_system_audio_status(1), (true, true));
}

#[test]
fn empty_recording_is_padded_as_well() {
    let mut manager = open_manager(true, AudioSource::Microphone);
    assert_eq!(manager.try_start_recording("a"), StartOutcome::Started);
    assert_eq!(manager.stop_recording("a"), StopOutcome::Stopped(None));
    let segment = pad_short_segment(Vec::<f32>::new(), 0.0);
    assert_eq!(segment, vec![0.0f32; 20000]);
}
