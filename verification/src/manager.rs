//! The recording orchestrator: one capture session at a time.
//!
//! The manager owns the recording state, the microphone mode and the flags
//! that say whether a stream is open, whether output was muted and whether
//! a device switch is under way. It never touches a device itself. Each
//! method decides, changes the state and answers with what the caller has
//! to do to the backend: open a stream, close it, discard stale samples.
//! Where a step needs a stream that is not open yet, the method says so and
//! leaves the state alone; the caller opens the stream, reports how that
//! went with [`AudioRecordingManager::stream_opened`] and asks again.
//!
//! All transitions are total functions of [`ManagerState`], the
//! mathematical picture of the manager, so that what holds of every
//! sequence of calls can be stated and proved over them.

use crate::error::CaptureError;
use crate::settings::AudioSource;
use crate::settings::CaptureSettings;
use crate::settings::MicrophoneMode;
use vstd::prelude::*;

verus! {

/// Whether a recording is under way, and for which binding.
#[derive(Clone, Debug)]
pub enum RecordingState {
    /// No recording.
    Idle,
    /// A recording started for `binding_id`; only a stop that names the
    /// same binding ends it.
    Recording { binding_id: String },
}

impl RecordingState {
    /// The binding of the running recording, if there is one.
    pub open spec fn session(&self) -> Option<Seq<char>> {
        match self {
            RecordingState::Idle => None,
            RecordingState::Recording { binding_id } => Some(binding_id@),
        }
    }
}

/// The binding under which continuous transcription of system audio records.
pub open spec fn continuous_binding() -> Seq<char> {
    "transcribe"@
}

/// What closing the stream asks of the caller, besides releasing the backend.
#[derive(Clone, Copy, Debug, PartialEq, Eq, Structural)]
pub struct StreamClose {
    /// System output was muted for the recording and is to be unmuted.
    pub unmute: bool,
    /// A recording was still running and is to be stopped first.
    pub was_recording: bool,
}

/// Answer to a request to open the stream.
#[derive(Clone, Copy, Debug, PartialEq, Eq, Structural)]
pub enum StreamStart {
    /// A stream is open already and no second one is opened. `resumed`
    /// says that continuous transcription was not recording and has been
    /// started again: stale samples are to be discarded.
    AlreadyOpen { resumed: bool },
    /// The caller is to select and start a backend for this source and to
    /// report the result.
    Open(AudioSource),
}

/// Answer to a report that the stream was opened.
#[derive(Clone, Copy, Debug, PartialEq, Eq, Structural)]
pub struct StreamReady {
    /// Continuous transcription has been started with the stream: stale
    /// samples are to be discarded and the transcription loop is to run.
    pub auto_transcribe: bool,
}

/// Answer to a request to start a recording.
#[derive(Clone, Copy, Debug, PartialEq, Eq, Structural)]
pub enum StartOutcome {
    /// The recording has started; stale samples are to be discarded.
    Started,
    /// Another recording is running; nothing has changed.
    AlreadyRecording,
    /// On-demand mode with no stream open: the caller is to open one and
    /// ask again. Nothing has changed.
    NeedsStream,
    /// Always-on mode with no stream open: there is nothing to record
    /// from. Nothing has changed.
    Unavailable,
}

/// Answer to a request to stop or cancel the recording.
#[derive(Clone, Copy, Debug, PartialEq, Eq, Structural)]
pub enum StopOutcome {
    /// The recording has ended. The caller drains the backend (and keeps
    /// or drops the samples), then closes the stream if `Some` says so.
    Stopped(Option<StreamClose>),
    /// There was nothing to stop: no recording, or one for another
    /// binding. Nothing has changed.
    Ignored,
}

/// Answer to a change of mode.
#[derive(Clone, Copy, Debug, PartialEq, Eq, Structural)]
pub enum ModeUpdate {
    /// The mode is in force; the stream is to be closed if `Some` says so.
    Switched(Option<StreamClose>),
    /// Always-on was asked for with no stream open: the caller is to open
    /// one and ask again. The mode has not changed.
    NeedsStream,
}

/// Answer to a change of device or source.
#[derive(Clone, Copy, Debug, PartialEq, Eq, Structural)]
pub enum DeviceSwitch {
    /// Another switch is under way. The caller waits and then looks again
    /// with [`AudioRecordingManager::recheck_after_switch`].
    InFlight,
    /// No stream is open; the new configuration is used when one is opened.
    NothingOpen,
    /// The stream has been marked closed and the switch is under way: the
    /// caller closes the backend, opens a stream again and, however that
    /// ends, calls [`AudioRecordingManager::finish_switch`].
    Restart(StreamClose),
}

/// The mathematical picture of the manager.
pub struct ManagerState {
    /// The binding of the running recording, if there is one.
    pub session: Option<Seq<char>>,
    /// The microphone mode in force.
    pub mode: MicrophoneMode,
    /// Whether a capture stream is open.
    pub is_open: bool,
    /// Whether system output was muted for the recording.
    pub did_mute: bool,
    /// Whether a device switch is under way.
    pub switching: bool,
}

impl ManagerState {
    /// The state of a new manager: idle, nothing open.
    pub open spec fn initial(always_on: bool) -> Self {
        ManagerState {
            session: None,
            mode: if always_on {
                MicrophoneMode::AlwaysOn
            } else {
                MicrophoneMode::OnDemand
            },
            is_open: false,
            did_mute: false,
            switching: false,
        }
    }

    /// A recording runs only on an open stream, and output is muted only
    /// while a stream is open.
    pub open spec fn wf(self) -> bool {
        &&& self.session is Some ==> self.is_open
        &&& self.did_mute ==> self.is_open
    }

    /// Closing the stream: ends any recording and drops the mute.
    pub open spec fn close(self) -> (Self, Option<StreamClose>) {
        if self.is_open {
            (
                ManagerState { session: None, is_open: false, did_mute: false, ..self },
                Some(StreamClose { unmute: self.did_mute, was_recording: self.session is Some }),
            )
        } else {
            (self, None)
        }
    }

    /// Continuous transcription is called for but not recording.
    pub open spec fn should_resume(self, settings: CaptureSettings) -> bool {
        settings.continuous() && self.is_open && self.session is None
    }

    /// A request to open the stream.
    pub open spec fn start_stream(self, settings: CaptureSettings) -> (Self, StreamStart) {
        if self.is_open {
            if self.should_resume(settings) {
                (
                    ManagerState { session: Some(continuous_binding()), ..self },
                    StreamStart::AlreadyOpen { resumed: true },
                )
            } else {
                (self, StreamStart::AlreadyOpen { resumed: false })
            }
        } else {
            (ManagerState { did_mute: false, ..self }, StreamStart::Open(settings.audio_source))
        }
    }

    /// The report of how opening the stream went.
    pub open spec fn stream_opened(self, settings: CaptureSettings, outcome: Result<(), CaptureError>) -> (
        Self,
        Result<StreamReady, CaptureError>,
    ) {
        match outcome {
            Ok(_) => {
                let opened = ManagerState { is_open: true, ..self };
                if opened.should_resume(settings) {
                    (
                        ManagerState { session: Some(continuous_binding()), ..opened },
                        Ok(StreamReady { auto_transcribe: true }),
                    )
                } else {
                    (opened, Ok(StreamReady { auto_transcribe: false }))
                }
            },
            Err(e) => (
                ManagerState { session: None, is_open: false, did_mute: false, ..self },
                Err(e),
            ),
        }
    }

    /// A request to start a recording for `binding`.
    pub open spec fn try_start(self, binding: Seq<char>) -> (Self, StartOutcome) {
        if self.session is Some {
            (self, StartOutcome::AlreadyRecording)
        } else if self.is_open {
            (ManagerState { session: Some(binding), ..self }, StartOutcome::Started)
        } else if self.mode == MicrophoneMode::OnDemand {
            (self, StartOutcome::NeedsStream)
        } else {
            (self, StartOutcome::Unavailable)
        }
    }

    /// The end of the running recording: back to idle, and in on-demand
    /// mode the stream is closed.
    pub open spec fn end_session(self) -> (Self, StopOutcome) {
        let idle = ManagerState { session: None, ..self };
        if self.mode == MicrophoneMode::OnDemand {
            (idle.close().0, StopOutcome::Stopped(idle.close().1))
        } else {
            (idle, StopOutcome::Stopped(None))
        }
    }

    /// A request to stop the recording of `binding`.
    pub open spec fn stop(self, binding: Seq<char>) -> (Self, StopOutcome) {
        if self.session == Some(binding) {
            self.end_session()
        } else {
            (self, StopOutcome::Ignored)
        }
    }

    /// A request to cancel whatever recording runs.
    pub open spec fn cancel(self) -> (Self, StopOutcome) {
        if self.session is Some {
            self.end_session()
        } else {
            (self, StopOutcome::Ignored)
        }
    }

    /// A change of mode.
    pub open spec fn update_mode(self, new_mode: MicrophoneMode) -> (Self, ModeUpdate) {
        if self.mode == new_mode {
            (self, ModeUpdate::Switched(None))
        } else if new_mode == MicrophoneMode::OnDemand {
            if self.session is None {
                (
                    ManagerState { mode: new_mode, ..self.close().0 },
                    ModeUpdate::Switched(self.close().1),
                )
            } else {
                (ManagerState { mode: new_mode, ..self }, ModeUpdate::Switched(None))
            }
        } else if self.is_open {
            (ManagerState { mode: new_mode, ..self }, ModeUpdate::Switched(None))
        } else {
            (self, ModeUpdate::NeedsStream)
        }
    }

    /// A change of device or source.
    pub open spec fn switch_device(self) -> (Self, DeviceSwitch) {
        if self.switching {
            (self, DeviceSwitch::InFlight)
        } else if self.is_open {
            (
                ManagerState { switching: true, ..self.close().0 },
                DeviceSwitch::Restart(self.close().1->0),
            )
        } else {
            (self, DeviceSwitch::NothingOpen)
        }
    }

    /// A second look after waiting for a switch that was under way.
    pub open spec fn recheck(self, settings: CaptureSettings) -> (Self, bool) {
        if self.should_resume(settings) {
            (ManagerState { session: Some(continuous_binding()), ..self }, true)
        } else {
            (self, false)
        }
    }

    /// Muting for a recording.
    pub open spec fn mute(self, mute_while_recording: bool) -> (Self, bool) {
        if mute_while_recording && self.is_open {
            (ManagerState { did_mute: true, ..self }, true)
        } else {
            (self, false)
        }
    }

    /// Taking the mute back.
    pub open spec fn unmute(self) -> (Self, bool) {
        if self.did_mute {
            (ManagerState { did_mute: false, ..self }, true)
        } else {
            (self, false)
        }
    }
}

/// The orchestrator of capture stream and recording session.
pub struct AudioRecordingManager {
    state: RecordingState,
    mode: MicrophoneMode,
    is_open: bool,
    did_mute: bool,
    is_updating: bool,
}

impl View for AudioRecordingManager {
    type V = ManagerState;

    closed spec fn view(&self) -> ManagerState {
        ManagerState {
            session: self.state.session(),
            mode: self.mode,
            is_open: self.is_open,
            did_mute: self.did_mute,
            switching: self.is_updating,
        }
    }
}

impl AudioRecordingManager {
    /// A manager that is idle with no stream open.
    ///
    /// `open_now` is set in always-on mode: the caller is to open the
    /// stream at once, as [`AudioRecordingManager::start_microphone_stream`]
    /// directs.
    pub fn new(always_on_microphone: bool) -> (made: (Self, bool))
        ensures
            made.0@ == ManagerState::initial(always_on_microphone),
            made.1 == always_on_microphone,
    {
        let mode = if always_on_microphone {
            MicrophoneMode::AlwaysOn
        } else {
            MicrophoneMode::OnDemand
        };
        (
            AudioRecordingManager {
                state: RecordingState::Idle,
                mode,
                is_open: false,
                did_mute: false,
                is_updating: false,
            },
            always_on_microphone,
        )
    }

    /// The recording state.
    pub fn state(&self) -> (state: &RecordingState)
        ensures
            state.session() == self@.session,
    {
        &self.state
    }

    /// The microphone mode in force.
    pub fn mode(&self) -> (mode: MicrophoneMode)
        ensures
            mode == self@.mode,
    {
        self.mode
    }

    /// Whether a capture stream is open.
    pub fn is_open(&self) -> (open: bool)
        ensures
            open == self@.is_open,
    {
        self.is_open
    }

    /// Whether a recording runs.
    pub fn is_recording(&self) -> (recording: bool)
        ensures
            recording == (self@.session is Some),
    {
        match &self.state {
            RecordingState::Idle => false,
            RecordingState::Recording { .. } => true,
        }
    }

    /// Whether system output was muted for the recording.
    pub fn did_mute(&self) -> (muted: bool)
        ensures
            muted == self@.did_mute,
    {
        self.did_mute
    }

    /// Whether a device switch is under way.
    pub fn is_switching(&self) -> (switching: bool)
        ensures
            switching == self@.switching,
    {
        self.is_updating
    }

    /// Marks the stream closed, if it is open, and says what that takes.
    fn close_stream(&mut self) -> (close: Option<StreamClose>)
        ensures
            (final(self)@, close) == old(self)@.close(),
    {
        if !self.is_open {
            return None;
        }
        let close = StreamClose { unmute: self.did_mute, was_recording: self.is_recording() };
        self.did_mute = false;
        self.state = RecordingState::Idle;
        self.is_open = false;
        Some(close)
    }

    /// Starts recording under the continuous binding if the settings call
    /// for continuous transcription and it is not running.
    fn resume_if_due(&mut self, settings: &CaptureSettings) -> (resumed: bool)
        ensures
            (final(self)@, resumed) == old(self)@.recheck(*settings),
    {
        if settings.is_continuous() && self.is_open && !self.is_recording() {
            self.state = RecordingState::Recording { binding_id: "transcribe".to_owned() };
            true
        } else {
            false
        }
    }

    /// Applies the mute if the setting asks for it and a stream is open.
    /// Returns whether the caller is to mute system output.
    pub fn apply_mute(&mut self, mute_while_recording: bool) -> (mute: bool)
        ensures
            (final(self)@, mute) == old(self)@.mute(mute_while_recording),
    {
        if mute_while_recording && self.is_open {
            self.did_mute = true;
            true
        } else {
            false
        }
    }

    /// Takes the mute back if it was applied. Returns whether the caller
    /// is to unmute system output.
    pub fn remove_mute(&mut self) -> (unmute: bool)
        ensures
            (final(self)@, unmute) == old(self)@.unmute(),
    {
        if self.did_mute {
            self.did_mute = false;
            true
        } else {
            false
        }
    }

    /// Asks for an open stream.
    ///
    /// With a stream open nothing is opened: the call succeeds as it is,
    /// and only makes sure that continuous transcription is recording.
    /// Otherwise the caller is told which source to open.
    pub fn start_microphone_stream(&mut self, settings: &CaptureSettings) -> (start: StreamStart)
        ensures
            (final(self)@, start) == old(self)@.start_stream(*settings),
    {
        if self.is_open {
            let resumed = self.resume_if_due(settings);
            StreamStart::AlreadyOpen { resumed }
        } else {
            self.did_mute = false;
            StreamStart::Open(settings.audio_source)
        }
    }

    /// Takes the result of opening the stream.
    ///
    /// On success the stream counts as open, and continuous transcription
    /// starts recording if the settings call for it. On failure everything
    /// is closed and the error is handed back.
    pub fn stream_opened(&mut self, settings: &CaptureSettings, outcome: Result<(), CaptureError>) -> (ready:
        Result<StreamReady, CaptureError>)
        ensures
            (final(self)@, ready) == old(self)@.stream_opened(*settings, outcome),
    {
        match outcome {
            Ok(_) => {
                self.is_open = true;
                let auto_transcribe = self.resume_if_due(settings);
                Ok(StreamReady { auto_transcribe })
            },
            Err(e) => {
                self.state = RecordingState::Idle;
                self.is_open = false;
                self.did_mute = false;
                Err(e)
            },
        }
    }

    /// Closes the stream. `None` if none was open.
    pub fn stop_microphone_stream(&mut self) -> (close: Option<StreamClose>)
        ensures
            (final(self)@, close) == old(self)@.close(),
    {
        self.close_stream()
    }

    /// Changes the mode.
    ///
    /// Leaving always-on while idle closes the stream. Entering always-on
    /// needs an open stream; without one the mode stays as it is.
    pub fn update_mode(&mut self, new_mode: MicrophoneMode) -> (update: ModeUpdate)
        ensures
            (final(self)@, update) == old(self)@.update_mode(new_mode),
    {
        if self.mode == new_mode {
            return ModeUpdate::Switched(None);
        }
        match new_mode {
            MicrophoneMode::OnDemand => {
                let close = if self.is_recording() {
                    None
                } else {
                    self.close_stream()
                };
                self.mode = new_mode;
                ModeUpdate::Switched(close)
            },
            MicrophoneMode::AlwaysOn => {
                if self.is_open {
                    self.mode = new_mode;
                    ModeUpdate::Switched(None)
                } else {
                    ModeUpdate::NeedsStream
                }
            },
        }
    }

    /// Starts a recording for `binding_id` if none runs and a stream is open.
    pub fn try_start_recording(&mut self, binding_id: &str) -> (outcome: StartOutcome)
        ensures
            (final(self)@, outcome) == old(self)@.try_start(binding_id@),
    {
        if self.is_recording() {
            StartOutcome::AlreadyRecording
        } else if self.is_open {
            self.state = RecordingState::Recording { binding_id: binding_id.to_owned() };
            StartOutcome::Started
        } else {
            match self.mode {
                MicrophoneMode::OnDemand => StartOutcome::NeedsStream,
                MicrophoneMode::AlwaysOn => StartOutcome::Unavailable,
            }
        }
    }

    /// Whether a stream is open and whether samples are waiting in it.
    /// `buffered` is the number of samples waiting in the backend.
    pub fn get_system_audio_status(&self, buffered: usize) -> (status: (bool, bool))
        ensures
            status.0 == self@.is_open,
            status.1 == (self@.is_open && buffered > 0),
    {
        (self.is_open, self.is_open && buffered > 0)
    }

    /// Starts a change of device or source. Only one runs at a time.
    pub fn update_selected_device(&mut self) -> (switch: DeviceSwitch)
        ensures
            (final(self)@, switch) == old(self)@.switch_device(),
    {
        if self.is_updating {
            return DeviceSwitch::InFlight;
        }
        match self.close_stream() {
            Some(close) => {
                self.is_updating = true;
                DeviceSwitch::Restart(close)
            },
            None => DeviceSwitch::NothingOpen,
        }
    }

    /// Ends the change of device or source, however it went.
    pub fn finish_switch(&mut self)
        ensures
            final(self)@ == (ManagerState { switching: false, ..old(self)@ }),
    {
        self.is_updating = false;
    }

    /// Looks again after waiting for a switch that was under way: starts
    /// continuous transcription if it is called for and not recording.
    /// Returns whether it did; stale samples are then to be discarded.
    pub fn recheck_after_switch(&mut self, settings: &CaptureSettings) -> (resumed: bool)
        ensures
            (final(self)@, resumed) == old(self)@.recheck(*settings),
    {
        self.resume_if_due(settings)
    }

    /// Ends the recording of `binding_id`.
    ///
    /// A stop for another binding than the one recording, or with nothing
    /// recording, is ignored.
    pub fn stop_recording(&mut self, binding_id: &str) -> (outcome: StopOutcome)
        ensures
            (final(self)@, outcome) == old(self)@.stop(binding_id@),
    {
        let matches = match &self.state {
            RecordingState::Idle => false,
            RecordingState::Recording { binding_id: active } => {
                let wanted = binding_id.to_owned();
                *active == wanted
            },
        };
        if matches {
            self.finish_session()
        } else {
            StopOutcome::Ignored
        }
    }

    /// Ends whatever recording runs; the caller drops its samples.
    pub fn cancel_recording(&mut self) -> (outcome: StopOutcome)
        ensures
            (final(self)@, outcome) == old(self)@.cancel(),
    {
        if self.is_recording() {
            self.finish_session()
        } else {
            StopOutcome::Ignored
        }
    }

    /// Back to idle; in on-demand mode the stream is closed as well.
    fn finish_session(&mut self) -> (outcome: StopOutcome)
        ensures
            (final(self)@, outcome) == old(self)@.end_session(),
    {
        self.state = RecordingState::Idle;
        match self.mode {
            MicrophoneMode::OnDemand => StopOutcome::Stopped(self.close_stream()),
            MicrophoneMode::AlwaysOn => StopOutcome::Stopped(None),
        }
    }
}

/// Every transition keeps a recording on an open stream and the mute
/// within an open stream.
pub proof fn lemma_transitions_keep_wf(
    state: ManagerState,
    settings: CaptureSettings,
    outcome: Result<(), CaptureError>,
    binding: Seq<char>,
    mode: MicrophoneMode,
    mute_while_recording: bool,
)
    requires
        state.wf(),
    ensures
        ManagerState::initial(settings.always_on_microphone).wf(),
        state.close().0.wf(),
        state.start_stream(settings).0.wf(),
        state.stream_opened(settings, outcome).0.wf(),
        state.try_start(binding).0.wf(),
        state.stop(binding).0.wf(),
        state.cancel().0.wf(),
        state.update_mode(mode).0.wf(),
        state.switch_device().0.wf(),
        state.recheck(settings).0.wf(),
        state.mute(mute_while_recording).0.wf(),
        state.unmute().0.wf(),
{
}

/// Asking for a stream while one is open succeeds without opening
/// another, however often it is asked; the second answer changes nothing
/// any more.
pub proof fn lemma_open_stream_is_not_reopened(state: ManagerState, settings: CaptureSettings)
    requires
        state.is_open,
    ensures
        ({
            let (once, first) = state.start_stream(settings);
            let (twice, second) = once.start_stream(settings);
            &&& first is AlreadyOpen
            &&& second == StreamStart::AlreadyOpen { resumed: false }
            &&& once.is_open
            &&& twice == once
        }),
{
}

/// Starting a recording while idle with the stream open succeeds and
/// opens nothing. A second start right after it finds the first recording
/// running: it opens nothing either and changes nothing.
pub proof fn lemma_start_on_open_stream(state: ManagerState, first: Seq<char>, second: Seq<char>)
    requires
        state.is_open,
        state.session is None,
    ensures
        ({
            let (once, started) = state.try_start(first);
            let (twice, again) = once.try_start(second);
            &&& started == StartOutcome::Started
            &&& once.session == Some(first)
            &&& once.is_open
            &&& again == StartOutcome::AlreadyRecording
            &&& twice == once
        }),
{
}

/// A recording can be started, ended and started again on one open stream
/// in always-on mode: both starts succeed and nothing is opened or closed.
pub proof fn lemma_start_again_after_stop(state: ManagerState, first: Seq<char>, second: Seq<char>)
    requires
        state.is_open,
        state.session is None,
        state.mode == MicrophoneMode::AlwaysOn,
    ensures
        ({
            let (once, started) = state.try_start(first);
            let (idle, stopped) = once.stop(first);
            let (twice, again) = idle.try_start(second);
            &&& started == StartOutcome::Started
            &&& stopped == StopOutcome::Stopped(None)
            &&& idle == state
            &&& again == StartOutcome::Started
            &&& twice.is_open
        }),
{
}

/// A stop that names another binding than the one recording, or that
/// comes when nothing records, is ignored and changes nothing.
pub proof fn lemma_stale_stop_is_ignored(state: ManagerState, binding: Seq<char>)
    requires
        state.session != Some(binding),
    ensures
        state.stop(binding) == (state, StopOutcome::Ignored),
{
}

/// In on-demand mode a recording that is stopped leaves the stream closed
/// and the manager idle; the same holds when it is cancelled.
pub proof fn lemma_on_demand_closes_after_stop(state: ManagerState, binding: Seq<char>)
    requires
        state.wf(),
        state.mode == MicrophoneMode::OnDemand,
        state.session == Some(binding),
    ensures
        ({
            let (after, outcome) = state.stop(binding);
            &&& !after.is_open
            &&& after.session is None
            &&& outcome == StopOutcome::Stopped(
                Some(StreamClose { unmute: state.did_mute, was_recording: false }),
            )
            &&& state.cancel() == state.stop(binding)
        }),
{
}

} // verus!
