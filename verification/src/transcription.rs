//! One round of the continuous transcription loop.
//!
//! While system audio is captured in always-on mode, a loop wakes at a
//! fixed interval, drains the backend, brings the samples to the target
//! rate, appends them to the sliding window and hands a segment to the
//! transcription consumer whenever the window has one ready. The loop
//! itself (the sleeping, the backend, the consumer) belongs to the caller;
//! what each round decides and keeps is here.

use crate::diagnostics::IdleCounters;
use crate::diagnostics::IdleNotice;
use crate::diagnostics::LevelMonitor;
use crate::diagnostics::LevelNotice;
use crate::diagnostics::ReadKind;
use crate::diagnostics::SegmentLevel;
use crate::manager::AudioRecordingManager;
use crate::manager::ManagerState;
use crate::manager::StartOutcome;
use crate::manager::continuous_binding;
use crate::frames::frames_view;
use crate::frames::join_frames;
use crate::frames::lemma_whole_frames_lose_nothing;
use crate::frames::partial_frame;
use crate::frames::whole_frames;
use crate::resampler::FrameResampler;
use crate::settings::CaptureSettings;
use crate::text::is_part_of;
use crate::text::trim;
use crate::text::trimmed;
use crate::window::SlidingWindow;
use crate::window::cut_point;
use crate::window::MIN_SEGMENT_SAMPLES;
use crate::window::OVERLAP_SAMPLES;
use vstd::prelude::*;
use vstd::string::StringSliceAdditionalSpecFns;
use vstd::utf8::encode_utf8;

verus! {

/// Seconds between two rounds.
pub const TRANSCRIBE_INTERVAL_SECS: u64 = 3;

/// Rate, in Hz, of the samples in the window.
pub const TARGET_RATE_HZ: u32 = 16000;

/// Samples in a frame of converted audio: 30 ms at the target rate.
pub const FRAME_SAMPLES: usize = 480;

/// Rate, in Hz, at which system audio arrives from its backends.
pub const SYSTEM_AUDIO_RATE_HZ: u32 = 48000;

/// How often the loop asks whether the model is loaded before it gives a
/// segment up.
pub const MODEL_WAIT_POLLS: u32 = 20;

/// Milliseconds between two such questions.
pub const MODEL_POLL_MILLIS: u64 = 500;

/// How a round begins.
#[derive(Clone, Copy, Debug, PartialEq, Eq, Structural)]
pub enum RoundStart {
    /// The loop ends: the settings no longer call for it, or recording
    /// could not be started again.
    Exit,
    /// Recording had stopped and needs a stream first: the caller opens
    /// one and begins the round again.
    OpenStream,
    /// The round goes on. `restarted` says that recording had stopped and
    /// was started again: stale samples are to be discarded.
    Proceed { restarted: bool },
}

/// How a round begins, as a function of the manager's state.
pub open spec fn round_start(state: ManagerState, settings: CaptureSettings) -> (
    ManagerState,
    RoundStart,
) {
    if !settings.continuous() {
        (state, RoundStart::Exit)
    } else if state.session is Some {
        (state, RoundStart::Proceed { restarted: false })
    } else {
        let (after, outcome) = state.try_start(continuous_binding());
        (
            after,
            match outcome {
                StartOutcome::Started => RoundStart::Proceed { restarted: true },
                StartOutcome::NeedsStream => RoundStart::OpenStream,
                _ => RoundStart::Exit,
            },
        )
    }
}

/// Begins a round: decides whether the loop goes on, and makes sure that
/// a recording runs if it does.
pub fn begin_round(manager: &mut AudioRecordingManager, settings: &CaptureSettings) -> (start:
    RoundStart)
    ensures
        (final(manager)@, start) == round_start(old(manager)@, *settings),
{
    if !settings.is_continuous() {
        RoundStart::Exit
    } else if manager.is_recording() {
        RoundStart::Proceed { restarted: false }
    } else {
        match manager.try_start_recording("transcribe") {
            StartOutcome::Started => RoundStart::Proceed { restarted: true },
            StartOutcome::NeedsStream => RoundStart::OpenStream,
            _ => RoundStart::Exit,
        }
    }
}

/// A loop that records goes on for as long as the settings call for it:
/// the round proceeds, nothing is restarted and the manager is left as it
/// is, whatever the backend yields in the round. So it is after every
/// round, however many there are.
pub proof fn lemma_running_loop_goes_on(state: ManagerState, settings: CaptureSettings)
    requires
        settings.continuous(),
        state.session is Some,
    ensures
        round_start(state, settings) == (state, RoundStart::Proceed { restarted: false }),
{
}

/// What draining the backend gave.
pub enum ReadOutcome<T> {
    /// The samples buffered since the last read.
    Samples(Vec<T>),
    /// Nothing was buffered.
    Nothing,
    /// The read failed.
    Failed,
    /// There is no backend to read.
    NoBackend,
}

impl<T> ReadOutcome<T> {
    /// The samples read, none unless the read gave some.
    pub open spec fn samples(self) -> Seq<T> {
        match self {
            ReadOutcome::Samples(samples) => samples@,
            _ => Seq::empty(),
        }
    }

    /// What the read counts as.
    pub open spec fn kind(self) -> ReadKind {
        match self {
            ReadOutcome::Samples(samples) => if samples@.len() > 0 {
                ReadKind::Samples
            } else {
                ReadKind::NoSamples
            },
            ReadOutcome::Nothing => ReadKind::Empty,
            ReadOutcome::Failed => ReadKind::Failed,
            ReadOutcome::NoBackend => ReadKind::NoBackend,
        }
    }
}

/// What to do with a segment while the model may still be loading.
#[derive(Clone, Copy, Debug, PartialEq, Eq, Structural)]
pub enum ModelWait {
    /// The model is loaded: transcribe.
    Ready,
    /// Sleep `MODEL_POLL_MILLIS` and ask again.
    Poll,
    /// The model did not load in time: skip the segment.
    Skip,
}

/// The next step of the wait, `polls` sleeps into it.
pub fn wait_for_model(loaded: bool, polls: u32) -> (step: ModelWait)
    ensures
        step == if loaded {
            ModelWait::Ready
        } else if polls < MODEL_WAIT_POLLS {
            ModelWait::Poll
        } else {
            ModelWait::Skip
        },
{
    if loaded {
        ModelWait::Ready
    } else if polls < MODEL_WAIT_POLLS {
        ModelWait::Poll
    } else {
        ModelWait::Skip
    }
}

/// Whether a transcript, white space around it taken away already, is
/// worth a caption: it is longer than one byte.
pub fn is_meaningful(transcript: &str) -> (meaningful: bool)
    ensures
        meaningful == (transcript.spec_bytes().len() > 1),
{
    transcript.as_bytes().len() > 1
}

/// The caption that a transcript gives: the transcript without the white
/// space around it, if what is left is meaningful.
pub fn caption_of(transcript: &str) -> (caption: Option<&str>)
    ensures
        match caption {
            Some(text) => {
                &&& text@ == trimmed(transcript@)
                &&& is_part_of(text@, transcript@)
                &&& encode_utf8(text@).len() > 1
            },
            None => encode_utf8(trimmed(transcript@)).len() <= 1,
        },
{
    let text = trim(transcript);
    if is_meaningful(text) {
        Some(text)
    } else {
        None
    }
}

/// A round loses no converted sample: what the window holds after the
/// round, followed by what is pending in the converter, is what the window
/// held before, followed by what was pending and what the round produced.
pub proof fn lemma_round_loses_nothing<T>(buffered: Seq<T>, pending: Seq<T>, produced: Seq<T>)
    ensures
        (buffered + whole_frames(pending + produced, FRAME_SAMPLES as nat).flatten())
            + partial_frame(pending + produced, FRAME_SAMPLES as nat) == buffered + (pending
            + produced),
        partial_frame(pending + produced, FRAME_SAMPLES as nat).len() < FRAME_SAMPLES,
{
    let all = pending + produced;
    lemma_whole_frames_lose_nothing(all, FRAME_SAMPLES as nat);
    let framed = whole_frames(all, FRAME_SAMPLES as nat).flatten();
    let rest = partial_frame(all, FRAME_SAMPLES as nat);
    assert((buffered + framed) + rest =~= buffered + (framed + rest));
}

/// What the loop keeps from round to round.
pub struct TranscriptionLoop<T> {
    window: SlidingWindow<T>,
    resampler: FrameResampler<T>,
    counters: IdleCounters,
    monitor: LevelMonitor,
}

impl<T: Copy> TranscriptionLoop<T> {
    /// The samples in the window, at the target rate, oldest first.
    pub closed spec fn buffered(&self) -> Seq<T> {
        self.window@
    }

    /// The converter from the backend's rate to the target rate.
    pub closed spec fn converter(&self) -> FrameResampler<T> {
        self.resampler
    }

    /// The idle counters.
    pub closed spec fn counters(&self) -> IdleCounters {
        self.counters
    }

    /// The level monitor.
    pub closed spec fn monitor(&self) -> LevelMonitor {
        self.monitor
    }

    /// The parts fit together: the window has the thresholds of the loop,
    /// and the converter frames its output at the target rate.
    pub closed spec fn wf(&self) -> bool {
        &&& self.window.min_len() == MIN_SEGMENT_SAMPLES
        &&& self.window.overlap() == OVERLAP_SAMPLES
        &&& self.resampler.wf()
        &&& self.resampler.out_rate() == TARGET_RATE_HZ
        &&& self.resampler.frame_len() == FRAME_SAMPLES
    }

    /// A loop for a backend that delivers at `native_rate`, with an empty
    /// window; `None` if the rate is zero.
    pub fn new(native_rate: u32) -> (made: Option<Self>)
        ensures
            made is Some <==> native_rate > 0,
            made matches Some(l) ==> {
                &&& l.wf()
                &&& l.converter().in_rate() == native_rate
                &&& l.converter().consumed() == Seq::<T>::empty()
                &&& l.converter().pending() == Seq::<T>::empty()
                &&& l.buffered() == Seq::<T>::empty()
                &&& l.counters() == IdleCounters::initial()
                &&& l.monitor() == LevelMonitor::initial()
            },
    {
        match FrameResampler::new(native_rate, TARGET_RATE_HZ, FRAME_SAMPLES) {
            Some(resampler) => Some(
                TranscriptionLoop {
                    window: SlidingWindow::for_transcription(),
                    resampler,
                    counters: IdleCounters::new(),
                    monitor: LevelMonitor::new(),
                },
            ),
            None => None,
        }
    }

    /// Number of samples in the window.
    pub fn buffered_len(&self) -> (n: usize)
        ensures
            n == self.buffered().len(),
    {
        self.window.len()
    }

    /// Number of converted samples that wait for their frame to fill up.
    pub fn pending_len(&self) -> (n: usize)
        ensures
            n == self.converter().pending().len(),
    {
        self.resampler.pending_len()
    }

    /// Takes what draining the backend gave.
    ///
    /// Samples are brought to the target rate, `blend` making each output
    /// sample from its tap, and the frames that they fill are appended to
    /// the window. Anything else is counted, and the notice says what is
    /// due to be reported.
    pub fn ingest<F: Fn(T, T, u32, u32) -> T>(&mut self, read: ReadOutcome<T>, blend: F) -> (notice:
        IdleNotice)
        requires
            old(self).wf(),
            forall|left: T, right: T, offset: u32, rate: u32|
                offset < rate ==> #[trigger] call_requires(blend, (left, right, offset, rate)),
        ensures
            final(self).wf(),
            final(self).monitor() == old(self).monitor(),
            (final(self).counters(), notice) == old(self).counters().counted(read.kind()),
            final(self).converter().in_rate() == old(self).converter().in_rate(),
            final(self).converter().consumed() == old(self).converter().consumed() + read.samples(),
            exists|produced: Seq<T>|
                {
                    &&& #[trigger] old(self).converter().produces(blend, read.samples(), produced)
                    &&& final(self).buffered() == old(self).buffered() + whole_frames(
                        old(self).converter().pending() + produced,
                        FRAME_SAMPLES as nat,
                    ).flatten()
                    &&& final(self).converter().pending() == partial_frame(
                        old(self).converter().pending() + produced,
                        FRAME_SAMPLES as nat,
                    )
                },
    {
        let (samples, kind) = match read {
            ReadOutcome::Samples(samples) => {
                let kind = if samples.len() > 0 {
                    ReadKind::Samples
                } else {
                    ReadKind::NoSamples
                };
                (samples, kind)
            },
            ReadOutcome::Nothing => (Vec::new(), ReadKind::Empty),
            ReadOutcome::Failed => (Vec::new(), ReadKind::Failed),
            ReadOutcome::NoBackend => (Vec::new(), ReadKind::NoBackend),
        };
        let ghost before = self.resampler;
        let ghost held = self.window@;
        let ghost incoming = read.samples();
        assert(incoming == samples@);
        let frames = self.resampler.push(samples.as_slice(), blend);
        let filled = join_frames(&frames);
        self.window.push_samples(filled.as_slice());
        let notice = self.counters.count(kind);
        proof {
            let produced = choose|produced: Seq<T>|
                {
                    &&& #[trigger] before.produces(blend, samples@, produced)
                    &&& frames_view(frames@) == whole_frames(
                        before.pending() + produced,
                        before.frame_len(),
                    )
                    &&& self.resampler.pending() == partial_frame(
                        before.pending() + produced,
                        before.frame_len(),
                    )
                };
            assert(old(self).converter().produces(blend, incoming, produced));
            assert(self.buffered() == old(self).buffered() + whole_frames(
                old(self).converter().pending() + produced,
                FRAME_SAMPLES as nat,
            ).flatten());
            assert(self.converter().pending() == partial_frame(
                old(self).converter().pending() + produced,
                FRAME_SAMPLES as nat,
            ));
        }
        notice
    }

    /// Cuts the next segment if the window holds at least two seconds,
    /// leaving the last second behind.
    pub fn next_segment(&mut self) -> (segment: Option<Vec<T>>)
        requires
            old(self).wf(),
        ensures
            final(self).wf(),
            final(self).converter() == old(self).converter(),
            final(self).counters() == old(self).counters(),
            final(self).monitor() == old(self).monitor(),
            ({
                let held = old(self).buffered();
                let cut = cut_point(held.len(), MIN_SEGMENT_SAMPLES as nat, OVERLAP_SAMPLES as nat) as int;
                &&& final(self).buffered() == held.skip(cut)
                &&& cut == 0 <==> segment is None
                &&& segment matches Some(s) ==> s@ == held.take(cut)
            }),
    {
        self.window.take_segment()
    }

    /// Takes the measured level of a segment and says what to report.
    pub fn observe_level(&mut self, level: SegmentLevel) -> (notice: LevelNotice)
        requires
            old(self).wf(),
        ensures
            final(self).wf(),
            final(self).buffered() == old(self).buffered(),
            final(self).converter() == old(self).converter(),
            final(self).counters() == old(self).counters(),
            (final(self).monitor(), notice) == old(self).monitor().observed(level),
    {
        self.monitor.observe(level)
    }
}

} // verus!
