//! Choosing and starting a backend for system audio.
//!
//! Backends are tried in a fixed order: a loopback device first, then a
//! helper process that captures for us. A loopback device that starts is
//! probed for audio for a few seconds. Silence there is no failure: the
//! device stays open and audio may arrive once the user routes output to
//! it. Only a loopback device that is missing or fails to start gives way
//! to the helper, and a helper that dies right after its launch is taken
//! as a refusal of the capture permission.
//!
//! The selector is a state machine. The caller performs what it asks for
//! (enumerate, start, sleep and measure, launch, look at the process) and
//! reports each result as the next event.

use crate::buffer::CaptureBuffer;
use crate::diagnostics::Side;
use crate::error::CaptureError;
use vstd::prelude::*;

verus! {

/// Probes made for audio after a loopback device has started.
pub const PROBE_ROUNDS: u32 = 5;

/// Milliseconds slept before each probe.
pub const PROBE_INTERVAL_MILLIS: u64 = 1000;

/// Milliseconds a launched helper is given before its process is looked at.
pub const HELPER_GRACE_MILLIS: u64 = 2000;

/// The backend that captures.
#[derive(Clone, Copy, Debug, PartialEq, Eq, Structural)]
pub enum CaptureMethod {
    /// An input device that carries what the system plays.
    Loopback,
    /// A child process that streams what it captures.
    Helper,
}

/// What follows a loopback device that is missing or fails to start.
#[derive(Clone, Copy, Debug, PartialEq, Eq, Structural)]
pub enum Fallback {
    /// The helper process is tried.
    Helper,
    /// Nothing: the start fails.
    Nothing,
}

/// How far a start has come.
#[derive(Clone, Copy, Debug, PartialEq, Eq, Structural)]
pub enum Phase {
    /// No start under way.
    Idle,
    /// Waiting to hear whether a loopback device exists.
    Searching,
    /// Waiting to hear whether the loopback device started.
    Starting,
    /// Waiting for the probe of this number, counted from one.
    Probing(u32),
    /// Waiting to hear whether the helper was launched.
    Launching,
    /// Waiting to hear whether the helper is still alive.
    Grace,
}

/// How launching the helper went.
#[derive(Clone, Copy, Debug, PartialEq, Eq, Structural)]
pub enum HelperLaunch {
    /// The helper program was not found.
    NotFound,
    /// The helper program could not be started.
    SpawnFailed,
    /// The helper runs.
    Spawned,
}

/// What a look at the helper process showed.
#[derive(Clone, Copy, Debug, PartialEq, Eq, Structural)]
pub enum HelperStatus {
    /// The process has exited.
    Exited,
    /// The process is running.
    Running,
    /// The process could not be examined.
    Unknown,
}

/// What the caller reports.
#[derive(Clone, Copy, Debug)]
pub enum StartEvent {
    /// A start is wanted.
    Begin,
    /// The input devices were searched for a loopback device.
    DeviceSearched { found: bool },
    /// The loopback device was started, or not.
    LoopbackStarted(Result<(), CaptureError>),
    /// A probe was made: the RMS level of the most recent samples against
    /// the silence threshold, or `None` if no sample has arrived yet.
    Probed(Option<Side>),
    /// The helper was launched, or not.
    HelperLaunched(HelperLaunch),
    /// The helper process was looked at after its grace period.
    HelperChecked(HelperStatus),
}

/// What the caller is to do next.
#[derive(Clone, Copy, Debug, PartialEq, Eq, Structural)]
pub enum StartAction {
    /// Capture is active already; nothing was touched.
    AlreadyActive(CaptureMethod),
    /// Search the input devices for a loopback device.
    FindLoopback,
    /// Start the loopback device found.
    StartLoopback,
    /// Sleep `PROBE_INTERVAL_MILLIS`, then measure the most recent samples.
    /// The number counts the probes from one.
    Probe(u32),
    /// Launch the helper process.
    LaunchHelper,
    /// Sleep `HELPER_GRACE_MILLIS`, then look at the helper process.
    CheckHelper,
    /// Capture is active. Without `audio_detected` the device is open but
    /// silent so far, which is a success all the same.
    Started { method: CaptureMethod, audio_detected: bool },
    /// The start has failed.
    Failed(CaptureError),
    /// The event does not belong to the step that is awaited; nothing changed.
    Ignored,
}

/// What stopping asks of the caller.
#[derive(Clone, Copy, Debug, PartialEq, Eq, Structural)]
pub enum StopAction {
    /// Capture was not active.
    Nothing,
    /// Signal the thread that owns the loopback stream to drop it, and let
    /// it finish in the background.
    SignalLoopback,
    /// Kill the helper process and reap it.
    KillHelper,
}

/// The mathematical picture of a selector.
pub struct SelectorState {
    /// What follows a loopback device that cannot be had.
    pub fallback: Fallback,
    /// How far the start under way has come.
    pub phase: Phase,
    /// Whether capture is active.
    pub capturing: bool,
    /// Whether the last start ended with the permission refused.
    pub permission_denied: bool,
    /// The backend that captures, while capture is active.
    pub method: Option<CaptureMethod>,
}

impl SelectorState {
    /// The state of a new selector.
    pub open spec fn initial(fallback: Fallback) -> Self {
        SelectorState {
            fallback,
            phase: Phase::Idle,
            capturing: false,
            permission_denied: false,
            method: None,
        }
    }

    /// Capture is active exactly while a method is in use.
    pub open spec fn wf(self) -> bool {
        self.capturing <==> self.method is Some
    }

    /// What follows a loopback device that cannot be had, for the reason `error`.
    pub open spec fn fall_back(self, error: CaptureError) -> (Self, StartAction) {
        match self.fallback {
            Fallback::Helper => (
                SelectorState { phase: Phase::Launching, ..self },
                StartAction::LaunchHelper,
            ),
            Fallback::Nothing => (
                SelectorState { phase: Phase::Idle, ..self },
                StartAction::Failed(error),
            ),
        }
    }

    /// The state after `event`, and what the caller is to do next.
    pub open spec fn next(self, event: StartEvent) -> (Self, StartAction) {
        match (self.phase, event) {
            (Phase::Idle, StartEvent::Begin) => {
                if self.capturing && self.method is Some {
                    (self, StartAction::AlreadyActive(self.method->0))
                } else {
                    (SelectorState { phase: Phase::Searching, ..self }, StartAction::FindLoopback)
                }
            },
            (Phase::Searching, StartEvent::DeviceSearched { found }) => {
                if found {
                    (SelectorState { phase: Phase::Starting, ..self }, StartAction::StartLoopback)
                } else {
                    self.fall_back(CaptureError::DeviceNotFound)
                }
            },
            (Phase::Starting, StartEvent::LoopbackStarted(Ok(_))) => (
                SelectorState {
                    phase: Phase::Probing(1),
                    capturing: true,
                    method: Some(CaptureMethod::Loopback),
                    ..self
                },
                StartAction::Probe(1),
            ),
            (Phase::Starting, StartEvent::LoopbackStarted(Err(error))) => self.fall_back(error),
            (Phase::Probing(round), StartEvent::Probed(level)) => {
                if level == Some(Side::Above) {
                    (
                        SelectorState { phase: Phase::Idle, ..self },
                        StartAction::Started {
                            method: CaptureMethod::Loopback,
                            audio_detected: true,
                        },
                    )
                } else if round < PROBE_ROUNDS {
                    (
                        SelectorState { phase: Phase::Probing((round + 1) as u32), ..self },
                        StartAction::Probe((round + 1) as u32),
                    )
                } else {
                    (
                        SelectorState { phase: Phase::Idle, ..self },
                        StartAction::Started {
                            method: CaptureMethod::Loopback,
                            audio_detected: false,
                        },
                    )
                }
            },
            (Phase::Launching, StartEvent::HelperLaunched(launch)) => {
                if launch == HelperLaunch::Spawned {
                    (SelectorState { phase: Phase::Grace, ..self }, StartAction::CheckHelper)
                } else {
                    (
                        SelectorState { phase: Phase::Idle, ..self },
                        StartAction::Failed(CaptureError::Unavailable),
                    )
                }
            },
            (Phase::Grace, StartEvent::HelperChecked(status)) => {
                if status == HelperStatus::Exited {
                    (
                        SelectorState {
                            phase: Phase::Idle,
                            capturing: false,
                            permission_denied: true,
                            method: None,
                            ..self
                        },
                        StartAction::Failed(CaptureError::PermissionDenied),
                    )
                } else {
                    (
                        SelectorState {
                            phase: Phase::Idle,
                            capturing: true,
                            permission_denied: false,
                            method: Some(CaptureMethod::Helper),
                            ..self
                        },
                        StartAction::Started {
                            method: CaptureMethod::Helper,
                            audio_detected: false,
                        },
                    )
                }
            },
            _ => (self, StartAction::Ignored),
        }
    }

    /// The state after a stop, and what the caller is to do for it.
    ///
    /// A helper that was launched is killed, whether capture through it
    /// has begun or its grace period is still running. A loopback stream
    /// that was started is signalled. Where neither exists there is
    /// nothing to release.
    pub open spec fn stopped(self) -> (Self, StopAction) {
        let idle = SelectorState { phase: Phase::Idle, capturing: false, method: None, ..self };
        if self.phase == Phase::Grace {
            (idle, StopAction::KillHelper)
        } else if !self.capturing {
            (SelectorState { phase: Phase::Idle, ..self }, StopAction::Nothing)
        } else if self.method == Some(CaptureMethod::Loopback) {
            (idle, StopAction::SignalLoopback)
        } else {
            (idle, StopAction::KillHelper)
        }
    }

    /// The state after the backend broke down in the middle of a session.
    pub open spec fn broken(self) -> Self {
        SelectorState { phase: Phase::Idle, capturing: false, method: None, ..self }
    }

    /// The state after the events `events`, one by one, and the answer to
    /// the last of them.
    pub open spec fn run(self, events: Seq<StartEvent>) -> (Self, StartAction)
        decreases events.len(),
    {
        if events.len() == 0 {
            (self, StartAction::Ignored)
        } else {
            self.run(events.drop_last()).0.next(events.last())
        }
    }
}

/// Selector and start-up state machine of a system-audio backend.
pub struct BackendSelector {
    fallback: Fallback,
    phase: Phase,
    is_capturing: bool,
    permission_denied: bool,
    method: Option<CaptureMethod>,
}

impl View for BackendSelector {
    type V = SelectorState;

    closed spec fn view(&self) -> SelectorState {
        SelectorState {
            fallback: self.fallback,
            phase: self.phase,
            capturing: self.is_capturing,
            permission_denied: self.permission_denied,
            method: self.method,
        }
    }
}

impl BackendSelector {
    /// A selector with nothing started.
    pub fn new(fallback: Fallback) -> (selector: Self)
        ensures
            selector@ == SelectorState::initial(fallback),
    {
        BackendSelector {
            fallback,
            phase: Phase::Idle,
            is_capturing: false,
            permission_denied: false,
            method: None,
        }
    }

    /// Whether capture is active.
    pub fn is_capturing(&self) -> (capturing: bool)
        ensures
            capturing == self@.capturing,
    {
        self.is_capturing
    }

    /// Whether the last start ended with the permission refused.
    pub fn is_permission_denied(&self) -> (denied: bool)
        ensures
            denied == self@.permission_denied,
    {
        self.permission_denied
    }

    /// The backend that captures, while capture is active.
    pub fn method(&self) -> (method: Option<CaptureMethod>)
        ensures
            method == self@.method,
    {
        self.method
    }

    /// How far the start under way has come.
    pub fn phase(&self) -> (phase: Phase)
        ensures
            phase == self@.phase,
    {
        self.phase
    }

    /// Leaves the loopback device for what the fallback says.
    fn fall_back(&mut self, error: CaptureError) -> (action: StartAction)
        ensures
            (final(self)@, action) == old(self)@.fall_back(error),
    {
        match self.fallback {
            Fallback::Helper => {
                self.phase = Phase::Launching;
                StartAction::LaunchHelper
            },
            Fallback::Nothing => {
                self.phase = Phase::Idle;
                StartAction::Failed(error)
            },
        }
    }

    /// Takes the next event and says what to do.
    pub fn step(&mut self, event: StartEvent) -> (action: StartAction)
        ensures
            (final(self)@, action) == old(self)@.next(event),
    {
        match (self.phase, event) {
            (Phase::Idle, StartEvent::Begin) => {
                if self.is_capturing {
                    if let Some(method) = self.method {
                        return StartAction::AlreadyActive(method);
                    }
                }
                self.phase = Phase::Searching;
                StartAction::FindLoopback
            },
            (Phase::Searching, StartEvent::DeviceSearched { found }) => {
                if found {
                    self.phase = Phase::Starting;
                    StartAction::StartLoopback
                } else {
                    self.fall_back(CaptureError::DeviceNotFound)
                }
            },
            (Phase::Starting, StartEvent::LoopbackStarted(Ok(_))) => {
                self.phase = Phase::Probing(1);
                self.is_capturing = true;
                self.method = Some(CaptureMethod::Loopback);
                StartAction::Probe(1)
            },
            (Phase::Starting, StartEvent::LoopbackStarted(Err(error))) => self.fall_back(error),
            (Phase::Probing(round), StartEvent::Probed(level)) => {
                let audible = match level {
                    Some(Side::Above) => true,
                    _ => false,
                };
                if audible {
                    self.phase = Phase::Idle;
                    StartAction::Started { method: CaptureMethod::Loopback, audio_detected: true }
                } else if round < PROBE_ROUNDS {
                    self.phase = Phase::Probing(round + 1);
                    StartAction::Probe(round + 1)
                } else {
                    self.phase = Phase::Idle;
                    StartAction::Started { method: CaptureMethod::Loopback, audio_detected: false }
                }
            },
            (Phase::Launching, StartEvent::HelperLaunched(launch)) => {
                match launch {
                    HelperLaunch::Spawned => {
                        self.phase = Phase::Grace;
                        StartAction::CheckHelper
                    },
                    _ => {
                        self.phase = Phase::Idle;
                        StartAction::Failed(CaptureError::Unavailable)
                    },
                }
            },
            (Phase::Grace, StartEvent::HelperChecked(status)) => {
                self.phase = Phase::Idle;
                match status {
                    HelperStatus::Exited => {
                        self.is_capturing = false;
                        self.permission_denied = true;
                        self.method = None;
                        StartAction::Failed(CaptureError::PermissionDenied)
                    },
                    _ => {
                        self.is_capturing = true;
                        self.permission_denied = false;
                        self.method = Some(CaptureMethod::Helper);
                        StartAction::Started { method: CaptureMethod::Helper, audio_detected: false }
                    },
                }
            },
            _ => StartAction::Ignored,
        }
    }

    /// Stops capture, and any start under way, and says what to release.
    /// The caller clears the sample buffer afterwards.
    pub fn stop_capture(&mut self) -> (action: StopAction)
        ensures
            (final(self)@, action) == old(self)@.stopped(),
    {
        let launched = match self.phase {
            Phase::Grace => true,
            _ => false,
        };
        self.phase = Phase::Idle;
        if !launched && !self.is_capturing {
            return StopAction::Nothing;
        }
        let action = match (launched, self.method) {
            (false, Some(CaptureMethod::Loopback)) => StopAction::SignalLoopback,
            _ => StopAction::KillHelper,
        };
        self.is_capturing = false;
        self.method = None;
        action
    }

    /// Marks capture inactive after the backend broke down. Reads give
    /// nothing from then on until capture is started again.
    pub fn mark_failed(&mut self)
        ensures
            final(self)@ == old(self)@.broken(),
    {
        self.phase = Phase::Idle;
        self.is_capturing = false;
        self.method = None;
    }

    /// Takes what the backend has buffered since the last read.
    ///
    /// While capture is active this is everything pending in `buffer`, in
    /// arrival order, or `None` if nothing is pending. While it is not,
    /// nothing is handed out and `buffer` is left alone.
    pub fn read_samples<T: Copy>(&self, buffer: &mut CaptureBuffer<T>) -> (samples: Option<Vec<T>>)
        ensures
            self@.capturing ==> {
                &&& final(buffer)@ == Seq::<T>::empty()
                &&& old(buffer)@.len() == 0 <==> samples is None
                &&& samples matches Some(s) ==> s@ == old(buffer)@
            },
            !self@.capturing ==> samples is None && final(buffer)@ == old(buffer)@,
    {
        if self.is_capturing {
            buffer.drain()
        } else {
            None
        }
    }
}

/// Every step and every stop keeps capture and method in line.
pub proof fn lemma_selector_keeps_wf(state: SelectorState, event: StartEvent)
    requires
        state.wf(),
    ensures
        SelectorState::initial(state.fallback).wf(),
        state.next(event).0.wf(),
        state.stopped().0.wf(),
        state.broken().wf(),
{
}

/// A stop leaves nothing running: afterwards capture is inactive and no
/// start is under way, and the caller was told to release whatever had
/// been started, the helper in its grace period included.
pub proof fn lemma_stop_releases_what_was_started(state: SelectorState)
    requires
        state.wf(),
    ensures
        ({
            let (after, action) = state.stopped();
            &&& !after.capturing
            &&& after.method is None
            &&& after.phase == Phase::Idle
            &&& action == StopAction::Nothing <==> !state.capturing && state.phase != Phase::Grace
            &&& state.phase == Phase::Grace ==> action == StopAction::KillHelper
        }),
{
}

/// Starting while capture is active succeeds and touches nothing.
pub proof fn lemma_start_is_idempotent(state: SelectorState)
    requires
        state.wf(),
        state.capturing,
        state.phase == Phase::Idle,
    ensures
        state.next(StartEvent::Begin) == (state, StartAction::AlreadyActive(state.method->0)),
{
}

/// A probe never ends in failure and never turns to the helper: while
/// probing, every event leaves capture as active as it was, and the answer
/// is another probe, a success, or that the event was ignored.
pub proof fn lemma_silence_is_no_failure(state: SelectorState, event: StartEvent)
    requires
        state.phase is Probing,
    ensures
        ({
            let (after, action) = state.next(event);
            &&& after.capturing == state.capturing
            &&& after.method == state.method
            &&& action is Probe || action is Started || action is Ignored
        }),
{
}

/// The event reports a probe that found no audio.
pub open spec fn is_silent_probe(event: StartEvent) -> bool {
    match event {
        StartEvent::Probed(level) => level != Some(Side::Above),
        _ => false,
    }
}

/// A loopback device that starts and stays silent is probed `PROBE_ROUNDS`
/// times and then counts as started, open but silent.
pub proof fn lemma_silent_loopback_is_kept(state: SelectorState, readings: Seq<StartEvent>)
    requires
        state.phase == Phase::Starting,
        readings.len() == PROBE_ROUNDS,
        forall|i: int| 0 <= i < readings.len() ==> is_silent_probe(#[trigger] readings[i]),
    ensures
        ({
            let (probing, first) = state.next(StartEvent::LoopbackStarted(Ok(())));
            let (end, last) = probing.run(readings);
            &&& first == StartAction::Probe(1)
            &&& last == StartAction::Started {
                method: CaptureMethod::Loopback,
                audio_detected: false,
            }
            &&& end.capturing
            &&& end.method == Some(CaptureMethod::Loopback)
            &&& end.phase == Phase::Idle
        }),
{
    let (probing, first) = state.next(StartEvent::LoopbackStarted(Ok(())));
    lemma_silent_probes(probing, readings.drop_last());
    let before = probing.run(readings.drop_last()).0;
    assert(before.phase == Phase::Probing(5));
    assert(readings.last() == readings[readings.len() - 1]);
}

/// After `k` silent probes, fewer than `PROBE_ROUNDS`, probe `k + 1` is awaited.
proof fn lemma_silent_probes(probing: SelectorState, readings: Seq<StartEvent>)
    requires
        probing.phase == Phase::Probing(1),
        readings.len() < PROBE_ROUNDS,
        forall|i: int| 0 <= i < readings.len() ==> is_silent_probe(#[trigger] readings[i]),
    ensures
        probing.run(readings).0.phase == Phase::Probing((readings.len() + 1) as u32),
        probing.run(readings).0.capturing == probing.capturing,
        probing.run(readings).0.method == probing.method,
    decreases readings.len(),
{
    if readings.len() > 0 {
        lemma_silent_probes(probing, readings.drop_last());
        assert(readings.last() == readings[readings.len() - 1]);
    }
}

/// The helper is turned to only when the loopback device is missing or
/// fails to start, and only where the fallback allows it.
pub proof fn lemma_helper_only_after_hard_failure(state: SelectorState, event: StartEvent)
    requires
        state.next(event).1 == StartAction::LaunchHelper,
    ensures
        state.fallback == Fallback::Helper,
        (state.phase == Phase::Searching && event == StartEvent::DeviceSearched { found: false })
            || (state.phase == Phase::Starting && event matches StartEvent::LoopbackStarted(
            Err(_),
        )),
{
}

/// A helper that has exited when its grace period ends means that the
/// permission was refused; one that runs, or cannot be examined, counts
/// as started.
pub proof fn lemma_helper_exit_is_denial(state: SelectorState, status: HelperStatus)
    requires
        state.phase == Phase::Grace,
    ensures
        ({
            let (after, action) = state.next(StartEvent::HelperChecked(status));
            if status == HelperStatus::Exited {
                &&& action == StartAction::Failed(CaptureError::PermissionDenied)
                &&& after.permission_denied
                &&& !after.capturing
            } else {
                &&& action == StartAction::Started {
                    method: CaptureMethod::Helper,
                    audio_detected: false,
                }
                &&& !after.permission_denied
                &&& after.capturing
            }
        }),
{
}

} // verus!
