//! Rate-limited diagnostics of the continuous transcription loop.
//!
//! A loopback device that is open but receives nothing is no failure: the
//! loop keeps polling. What it reports about the silence must not flood the
//! log, so every message here is tied to a counter and comes at the first
//! occurrence and then at fixed intervals only.
//!
//! Levels are measured by the caller. What arrives here is how the
//! measured value lies against its threshold.

use vstd::prelude::*;

verus! {

/// A segment counts as silent when its RMS level is below one part in
/// this many of full scale.
pub const SILENCE_RMS_RECIPROCAL: u32 = 100000;

/// A silent segment is reported only when its peak is below one part in
/// this many of full scale as well.
pub const SILENCE_PEAK_RECIPROCAL: u32 = 100;

/// An empty backend buffer is reported at the first read and then at every
/// tenth.
pub const EMPTY_READ_INTERVAL: u64 = 10;

/// A round without new samples is reported at the first and then at every
/// twentieth.
pub const IDLE_ROUND_INTERVAL: u64 = 20;

/// Continued silence is reported at the first silent segment and then at
/// every tenth.
pub const SILENCE_REMINDER_INTERVAL: u64 = 10;

/// How a measured value lies against its threshold. A value that cannot be
/// compared, such as the level of a segment holding a NaN, is `At`.
#[derive(Clone, Copy, Debug, PartialEq, Eq, Structural)]
pub enum Side {
    /// Strictly below the threshold.
    Below,
    /// Neither below nor above.
    At,
    /// Strictly above the threshold.
    Above,
}

/// The measured level of one segment.
#[derive(Clone, Copy, Debug, PartialEq, Eq, Structural)]
pub struct SegmentLevel {
    /// The RMS level against one part in `SILENCE_RMS_RECIPROCAL`.
    pub rms: Side,
    /// The peak against one part in `SILENCE_PEAK_RECIPROCAL`.
    pub peak: Side,
}

/// What the loop reports about the silence of a segment.
#[derive(Clone, Copy, Debug, PartialEq, Eq, Structural)]
pub enum SilenceNotice {
    /// Nothing to report.
    Quiet,
    /// The first silent segment: explain how to route audio.
    FirstSilence,
    /// Still silent after this many segments in a row.
    StillSilent(u64),
    /// Audio is back after this many silent segments.
    AudioResumed(u64),
}

/// What the loop reports about one segment.
#[derive(Clone, Copy, Debug, PartialEq, Eq, Structural)]
pub struct LevelNotice {
    /// The level rose above the threshold after silence, or for the first time.
    pub audio_detected: bool,
    /// What to say about silence.
    pub silence: SilenceNotice,
}

/// Memory of the levels seen: the level of the segment before, and how
/// many silent segments came in a row.
#[derive(Clone, Copy, Debug, PartialEq, Eq, Structural)]
pub struct LevelMonitor {
    /// The RMS side of the segment before, if there was one.
    pub previous: Option<Side>,
    /// Silent segments in a row up to now.
    pub silent_checks: u64,
}

impl LevelMonitor {
    /// The monitor before any segment.
    pub open spec fn initial() -> Self {
        LevelMonitor { previous: None, silent_checks: 0 }
    }

    /// Whether the segment before counts as silent; before the first
    /// segment everything counts as silence.
    pub open spec fn was_silent(self) -> bool {
        match self.previous {
            Some(side) => side == Side::Below,
            None => true,
        }
    }

    /// The monitor after a segment of level `level`, and what to report.
    pub open spec fn observed(self, level: SegmentLevel) -> (Self, LevelNotice) {
        let audio_detected = self.was_silent() && level.rms == Side::Above;
        if level.rms == Side::Below && level.peak == Side::Below {
            let checks = self.silent_checks.wrapping_add(1);
            let silence = if checks == 1 {
                SilenceNotice::FirstSilence
            } else if checks % SILENCE_REMINDER_INTERVAL == 0 {
                SilenceNotice::StillSilent(checks)
            } else {
                SilenceNotice::Quiet
            };
            (
                LevelMonitor { previous: Some(level.rms), silent_checks: checks },
                LevelNotice { audio_detected, silence },
            )
        } else {
            let silence = if self.silent_checks > 0 {
                SilenceNotice::AudioResumed(self.silent_checks)
            } else {
                SilenceNotice::Quiet
            };
            (
                LevelMonitor { previous: Some(level.rms), silent_checks: 0 },
                LevelNotice { audio_detected, silence },
            )
        }
    }

    /// A monitor that has seen no segment.
    pub fn new() -> (monitor: Self)
        ensures
            monitor == LevelMonitor::initial(),
    {
        LevelMonitor { previous: None, silent_checks: 0 }
    }

    /// Takes the level of the next segment and says what to report.
    pub fn observe(&mut self, level: SegmentLevel) -> (notice: LevelNotice)
        ensures
            (*final(self), notice) == old(self).observed(level),
    {
        let was_silent = match self.previous {
            Some(side) => side == Side::Below,
            None => true,
        };
        let audio_detected = was_silent && level.rms == Side::Above;
        let silence = if level.rms == Side::Below && level.peak == Side::Below {
            self.silent_checks = self.silent_checks.wrapping_add(1);
            if self.silent_checks == 1 {
                SilenceNotice::FirstSilence
            } else if self.silent_checks % SILENCE_REMINDER_INTERVAL == 0 {
                SilenceNotice::StillSilent(self.silent_checks)
            } else {
                SilenceNotice::Quiet
            }
        } else {
            let checks = self.silent_checks;
            self.silent_checks = 0;
            if checks > 0 {
                SilenceNotice::AudioResumed(checks)
            } else {
                SilenceNotice::Quiet
            }
        };
        self.previous = Some(level.rms);
        LevelNotice { audio_detected, silence }
    }
}

/// What a round of the loop found in the backend.
#[derive(Clone, Copy, Debug, PartialEq, Eq, Structural)]
pub enum ReadKind {
    /// New samples.
    Samples,
    /// A read that gave samples, none of them.
    NoSamples,
    /// Nothing buffered.
    Empty,
    /// The read failed.
    Failed,
    /// No backend to read from.
    NoBackend,
}

/// What the loop reports about a round.
#[derive(Clone, Copy, Debug, PartialEq, Eq, Structural)]
pub struct IdleNotice {
    /// The backend buffer was empty, for this many reads counting this one.
    pub buffer_empty: Option<u64>,
    /// The round brought no samples, as this many rounds did counting this one.
    pub no_samples: Option<u64>,
    /// The read failed.
    pub read_failed: bool,
    /// There was no backend.
    pub backend_missing: bool,
}

/// Counts of empty reads and of rounds without samples since the loop began.
#[derive(Clone, Copy, Debug, PartialEq, Eq, Structural)]
pub struct IdleCounters {
    /// Reads that found nothing buffered.
    pub empty_reads: u64,
    /// Rounds that brought no samples, for whatever reason.
    pub idle_rounds: u64,
}

/// The report due when an event has happened `before` times already: it is
/// due at the first time and then whenever `before` is a multiple of
/// `interval`, and names the count including this time.
pub open spec fn due(before: u64, interval: u64) -> Option<u64> {
    if interval > 0 && before % interval == 0 {
        Some(before.wrapping_add(1))
    } else {
        None
    }
}

impl IdleCounters {
    /// The counters before any round.
    pub open spec fn initial() -> Self {
        IdleCounters { empty_reads: 0, idle_rounds: 0 }
    }

    /// The counters after a round that found `kind`, and what to report.
    pub open spec fn counted(self, kind: ReadKind) -> (Self, IdleNotice) {
        if kind == ReadKind::Samples {
            (
                self,
                IdleNotice {
                    buffer_empty: None,
                    no_samples: None,
                    read_failed: false,
                    backend_missing: false,
                },
            )
        } else {
            let empty = kind == ReadKind::Empty;
            (
                IdleCounters {
                    empty_reads: if empty {
                        self.empty_reads.wrapping_add(1)
                    } else {
                        self.empty_reads
                    },
                    idle_rounds: self.idle_rounds.wrapping_add(1),
                },
                IdleNotice {
                    buffer_empty: if empty {
                        due(self.empty_reads, EMPTY_READ_INTERVAL)
                    } else {
                        None
                    },
                    no_samples: due(self.idle_rounds, IDLE_ROUND_INTERVAL),
                    read_failed: kind == ReadKind::Failed,
                    backend_missing: kind == ReadKind::NoBackend,
                },
            )
        }
    }

    /// Counters that have counted nothing.
    pub fn new() -> (counters: Self)
        ensures
            counters == IdleCounters::initial(),
    {
        IdleCounters { empty_reads: 0, idle_rounds: 0 }
    }

    /// Counts one round and says what to report about it.
    pub fn count(&mut self, kind: ReadKind) -> (notice: IdleNotice)
        ensures
            (*final(self), notice) == old(self).counted(kind),
    {
        let mut notice = IdleNotice {
            buffer_empty: None,
            no_samples: None,
            read_failed: false,
            backend_missing: false,
        };
        match kind {
            ReadKind::Samples => {
                return notice;
            },
            ReadKind::Empty => {
                notice.buffer_empty = report_if_due(self.empty_reads, EMPTY_READ_INTERVAL);
                self.empty_reads = self.empty_reads.wrapping_add(1);
            },
            ReadKind::Failed => {
                notice.read_failed = true;
            },
            ReadKind::NoBackend => {
                notice.backend_missing = true;
            },
            ReadKind::NoSamples => {},
        }
        notice.no_samples = report_if_due(self.idle_rounds, IDLE_ROUND_INTERVAL);
        self.idle_rounds = self.idle_rounds.wrapping_add(1);
        notice
    }
}

/// The report due when an event has happened `before` times already.
pub fn report_if_due(before: u64, interval: u64) -> (report: Option<u64>)
    ensures
        report == due(before, interval),
{
    if interval > 0 && before % interval == 0 {
        Some(before.wrapping_add(1))
    } else {
        None
    }
}

/// Silence is reported at the first silent segment and from then on no
/// more often than every `SILENCE_REMINDER_INTERVAL` segments: between two
/// reminders the monitor stays quiet.
pub proof fn lemma_silence_reports_are_spaced(monitor: LevelMonitor, level: SegmentLevel)
    requires
        level.rms == Side::Below,
        level.peak == Side::Below,
        monitor.silent_checks < u64::MAX,
    ensures
        ({
            let (after, notice) = monitor.observed(level);
            &&& after.silent_checks == monitor.silent_checks + 1
            &&& !notice.audio_detected
            &&& notice.silence == SilenceNotice::FirstSilence <==> monitor.silent_checks == 0
            &&& notice.silence is StillSilent <==> monitor.silent_checks > 0 && (
            monitor.silent_checks + 1) % 10 == 0
            &&& notice.silence !is AudioResumed
        }),
{
}

/// The monitor after `rounds` segments in a row of the level `level`, and
/// how many of them were given a silence notice other than `Quiet`.
pub open spec fn observed_many(monitor: LevelMonitor, level: SegmentLevel, rounds: nat) -> (
    LevelMonitor,
    nat,
)
    decreases rounds,
{
    if rounds == 0 {
        (monitor, 0)
    } else {
        let (before, told) = observed_many(monitor, level, (rounds - 1) as nat);
        let (after, notice) = before.observed(level);
        (
            after,
            if notice.silence == SilenceNotice::Quiet {
                told
            } else {
                told + 1
            },
        )
    }
}

/// Silence is reported rarely: of `rounds` silent segments in a row, at
/// most one and a tenth of them are given a notice, namely the first
/// silent segment ever and every tenth. None of them counts as audio.
pub proof fn lemma_silence_reports_are_bounded(
    monitor: LevelMonitor,
    level: SegmentLevel,
    rounds: nat,
)
    requires
        level.rms == Side::Below,
        level.peak == Side::Below,
        monitor.silent_checks + rounds <= u64::MAX,
    ensures
        ({
            let (after, told) = observed_many(monitor, level, rounds);
            let before = monitor.silent_checks as int;
            &&& after.silent_checks == before + rounds
            &&& told == (before + rounds) / 10 - before / 10 + if before == 0 && rounds > 0 {
                1int
            } else {
                0int
            }
            &&& told <= 1 + rounds / 10
        }),
    decreases rounds,
{
    if rounds > 0 {
        lemma_silence_reports_are_bounded(monitor, level, (rounds - 1) as nat);
        let (before, told) = observed_many(monitor, level, (rounds - 1) as nat);
        lemma_silence_reports_are_spaced(before, level);
    }
}

/// How many of `kinds` are reads that found nothing buffered.
pub open spec fn empty_reads_in(kinds: Seq<ReadKind>) -> nat
    decreases kinds.len(),
{
    if kinds.len() == 0 {
        0
    } else {
        empty_reads_in(kinds.drop_last()) + if kinds.last() == ReadKind::Empty {
            1nat
        } else {
            0nat
        }
    }
}

/// The counters after rounds that found `kinds`, one after the other, how
/// many of the rounds were given a notice of an empty buffer, and how many
/// a notice of no samples.
pub open spec fn counted_many(counters: IdleCounters, kinds: Seq<ReadKind>) -> (
    IdleCounters,
    nat,
    nat,
)
    decreases kinds.len(),
{
    if kinds.len() == 0 {
        (counters, 0, 0)
    } else {
        let (before, empty_told, idle_told) = counted_many(counters, kinds.drop_last());
        let (after, notice) = before.counted(kinds.last());
        (
            after,
            if notice.buffer_empty is Some {
                empty_told + 1
            } else {
                empty_told
            },
            if notice.no_samples is Some {
                idle_told + 1
            } else {
                idle_told
            },
        )
    }
}

/// Rounds without samples are reported rarely: of `n` such rounds in a
/// row, at most one and a tenth of `n` are given a notice of an empty
/// buffer, and at most one and a twentieth a notice of no samples. The
/// notices fall on the counts that are multiples of the interval.
pub proof fn lemma_idle_reports_are_bounded(counters: IdleCounters, kinds: Seq<ReadKind>)
    requires
        forall|i: int| 0 <= i < kinds.len() ==> #[trigger] kinds[i] != ReadKind::Samples,
        counters.empty_reads + kinds.len() <= u64::MAX,
        counters.idle_rounds + kinds.len() <= u64::MAX,
    ensures
        ({
            let (after, empty_told, idle_told) = counted_many(counters, kinds);
            let empties = empty_reads_in(kinds) as int;
            let empty_before = counters.empty_reads as int;
            let idle_before = counters.idle_rounds as int;
            &&& empties <= kinds.len()
            &&& after.empty_reads == empty_before + empties
            &&& after.idle_rounds == idle_before + kinds.len()
            &&& empty_told == (empty_before + empties + 9) / 10 - (empty_before + 9) / 10
            &&& idle_told == (idle_before + kinds.len() + 19) / 20 - (idle_before + 19) / 20
            &&& empty_told <= 1 + kinds.len() / 10
            &&& idle_told <= 1 + kinds.len() / 20
        }),
    decreases kinds.len(),
{
    if kinds.len() > 0 {
        let most = kinds.drop_last();
        assert forall|i: int| 0 <= i < most.len() implies #[trigger] most[i]
            != ReadKind::Samples by {
            assert(most[i] == kinds[i]);
        }
        lemma_idle_reports_are_bounded(counters, most);
        assert(kinds.last() == kinds[kinds.len() - 1]);
    }
}

} // verus!
