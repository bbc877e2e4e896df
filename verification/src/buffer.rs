//! The queue of pending samples between a capture backend and its reader.
//!
//! The producer (a device callback or the reader of a helper's output)
//! appends whole mono samples; the consumer drains everything at once. The
//! caller keeps the buffer behind its lock; nothing here blocks.

use crate::vad::keep_last;
use std::collections::VecDeque;
use vstd::prelude::*;

verus! {

/// Samples looked at when a backend is probed for audio: one second at 48 kHz.
pub const PROBE_WINDOW_SAMPLES: usize = 48000;

/// Pending mono samples at the backend's native rate, oldest first.
pub struct CaptureBuffer<T> {
    samples: VecDeque<T>,
}

impl<T> View for CaptureBuffer<T> {
    type V = Seq<T>;

    closed spec fn view(&self) -> Seq<T> {
        self.samples@
    }
}

impl<T: Copy> CaptureBuffer<T> {
    /// An empty buffer.
    pub fn new() -> (buffer: Self)
        ensures
            buffer@ == Seq::<T>::empty(),
    {
        CaptureBuffer { samples: VecDeque::new() }
    }

    /// Number of samples pending.
    pub fn len(&self) -> (n: usize)
        ensures
            n == self@.len(),
    {
        self.samples.len()
    }

    /// Whether nothing is pending.
    pub fn is_empty(&self) -> (empty: bool)
        ensures
            empty == (self@.len() == 0),
    {
        self.samples.len() == 0
    }

    /// Appends `samples` behind what is pending.
    pub fn extend(&mut self, samples: &[T])
        ensures
            final(self)@ == old(self)@ + samples@,
    {
        let ghost before = self.samples@;
        let mut i: usize = 0;
        while i < samples.len()
            invariant
                i <= samples@.len(),
                self.samples@ == before + samples@.take(i as int),
            decreases samples@.len() - i,
        {
            self.samples.push_back(samples[i]);
            assert(samples@.take(i + 1) =~= samples@.take(i as int).push(samples@[i as int]));
            i = i + 1;
        }
        assert(samples@.take(samples@.len() as int) =~= samples@);
    }

    /// Takes everything pending, in the order it arrived, or `None` if
    /// nothing is pending. The buffer is empty afterwards.
    pub fn drain(&mut self) -> (drained: Option<Vec<T>>)
        ensures
            final(self)@ == Seq::<T>::empty(),
            old(self)@.len() == 0 <==> drained is None,
            drained matches Some(samples) ==> samples@ == old(self)@,
    {
        let len = self.samples.len();
        if len == 0 {
            return None;
        }
        let ghost held = self.samples@;
        let mut drained: Vec<T> = Vec::new();
        let mut taken: usize = 0;
        while taken < len
            invariant
                taken <= len == held.len(),
                drained@ == held.take(taken as int),
                self.samples@ == held.skip(taken as int),
            decreases len - taken,
        {
            match self.samples.pop_front() {
                Some(sample) => {
                    drained.push(sample);
                    assert(held.take(taken + 1) =~= held.take(taken as int).push(sample));
                    assert(held.skip(taken as int).subrange(1, held.len() - taken) =~= held.skip(
                        taken + 1,
                    ));
                },
                None => {},
            }
            taken = taken + 1;
        }
        assert(held.take(len as int) =~= held);
        assert(self.samples@ =~= Seq::<T>::empty());
        Some(drained)
    }

    /// Drops everything pending.
    pub fn clear(&mut self)
        ensures
            final(self)@ == Seq::<T>::empty(),
    {
        self.samples.clear();
    }

    /// A copy of the most recent samples, at most `limit` of them, oldest
    /// first. Nothing is taken out.
    pub fn recent(&self, limit: usize) -> (tail: Vec<T>)
        ensures
            tail@ == keep_last(self@, limit as nat),
    {
        let len = self.samples.len();
        let start = if len > limit {
            len - limit
        } else {
            0
        };
        let mut tail: Vec<T> = Vec::new();
        let mut i: usize = start;
        while i < len
            invariant
                start <= i <= len,
                len == self.samples@.len(),
                tail@ == self.samples@.subrange(start as int, i as int),
            decreases len - i,
        {
            tail.push(self.samples[i]);
            assert(self.samples@.subrange(start as int, i + 1) =~= self.samples@.subrange(
                start as int,
                i as int,
            ).push(self.samples@[i as int]));
            i = i + 1;
        }
        assert(self.samples@.subrange(start as int, len as int) =~= keep_last(
            self.samples@,
            limit as nat,
        ));
        tail
    }
}

/// The frame of `channels` interleaved samples at position `frame` of `data`.
pub open spec fn frame_at<T>(data: Seq<T>, channels: nat, frame: int) -> Seq<T> {
    data.subrange(frame * channels, (frame + 1) * channels)
}

/// `mono` holds, frame by frame, what `average` returned for the frame.
/// A trailing part of `data` that fills no whole frame is left out.
pub open spec fn mixed_down_by<T, F: Fn(&[T]) -> T>(
    average: F,
    data: Seq<T>,
    channels: nat,
    mono: Seq<T>,
) -> bool {
    &&& mono.len() == data.len() / channels
    &&& forall|f: int|
        0 <= f < mono.len() ==> averaged(average, frame_at(data, channels, f), #[trigger] mono[f])
}

/// `sample` is what `average` returned for a frame that holds `frame`.
pub open spec fn averaged<T, F: Fn(&[T]) -> T>(average: F, frame: Seq<T>, sample: T) -> bool {
    exists|held: &[T]| held@ == frame && #[trigger] call_ensures(average, (held,), sample)
}

/// Mixes interleaved samples down to mono.
///
/// With one channel the samples pass as they are. Otherwise each whole
/// frame of `channels` samples becomes the one sample that `average` makes
/// of it.
pub fn mix_down<T: Copy, F: Fn(&[T]) -> T>(data: &[T], channels: usize, average: F) -> (mono: Vec<T>)
    requires
        channels > 0,
        forall|frame: &[T]| frame@.len() == channels ==> call_requires(average, (frame,)),
    ensures
        channels == 1 ==> mono@ == data@,
        channels > 1 ==> mixed_down_by(average, data@, channels as nat, mono@),
{
    let mut mono: Vec<T> = Vec::new();
    if channels == 1 {
        let mut i: usize = 0;
        while i < data.len()
            invariant
                i <= data@.len(),
                mono@ == data@.take(i as int),
            decreases data@.len() - i,
        {
            mono.push(data[i]);
            assert(data@.take(i + 1) =~= data@.take(i as int).push(data@[i as int]));
            i = i + 1;
        }
        assert(data@.take(data@.len() as int) =~= data@);
        return mono;
    }
    let frames = data.len() / channels;
    assert(data@.len() <= usize::MAX);
    let mut f: usize = 0;
    proof {
        let len = data@.len() as int;
        let width = channels as int;
        vstd::arithmetic::div_mod::lemma_fundamental_div_mod(len, width);
        assert((len / width) * width <= len) by (nonlinear_arith)
            requires
                len == width * (len / width) + len % width,
                0 <= len % width,
        ;
    }
    while f < frames
        invariant
            channels > 1,
            f <= frames,
            frames == data@.len() / (channels as nat),
            frames * channels <= data@.len() <= usize::MAX,
            mono@.len() == f,
            forall|frame: &[T]| frame@.len() == channels ==> call_requires(average, (frame,)),
            forall|g: int|
                0 <= g < f ==> averaged(
                    average,
                    frame_at(data@, channels as nat, g),
                    #[trigger] mono@[g],
                ),
        decreases frames - f,
    {
        proof {
            assert(0 <= f * channels && f * channels + channels <= frames * channels
                && (f + 1) * channels == f * channels + channels) by (nonlinear_arith)
                requires
                    0 <= f < frames,
                    channels > 0,
            ;
            assert(f * channels + channels <= data@.len());
        }
        let start = f * channels;
        let frame = slice_range(data, start, start + channels);
        let sample = average(frame);
        assert(averaged(average, frame_at(data@, channels as nat, f as int), sample)) by {
            assert(frame@ == frame_at(data@, channels as nat, f as int));
            assert(call_ensures(average, (frame,), sample));
        }
        mono.push(sample);
        f = f + 1;
    }
    mono
}

/// The part of `data` from `start` up to `end`.
fn slice_range<T>(data: &[T], start: usize, end: usize) -> (part: &[T])
    requires
        start <= end <= data@.len(),
    ensures
        part@ == data@.subrange(start as int, end as int),
{
    let (head, _tail) = data.split_at(end);
    let (_skipped, part) = head.split_at(start);
    proof {
        assert(part@ =~= data@.subrange(start as int, end as int));
    }
    part
}

} // verus!
