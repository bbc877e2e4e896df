//! The accumulation buffer of the continuous transcription loop.
//!
//! Samples at the target rate are appended as they arrive. Once enough of
//! them are held, everything but a fixed tail is cut off and handed on as
//! one segment; the tail stays and opens the next window. Every sample
//! therefore leaves in exactly one segment, in the order it came, or is
//! still held.

use std::collections::VecDeque;
use vstd::prelude::*;

verus! {

/// Samples that must be held before a segment is cut: two seconds at 16 kHz.
pub const MIN_SEGMENT_SAMPLES: usize = 32000;

/// Samples that stay behind after a cut: one second at 16 kHz.
pub const OVERLAP_SAMPLES: usize = 16000;

/// How many samples are cut from the front of a buffer of `len` samples.
///
/// Nothing is cut below `min_len`. From there on the cut leaves `overlap`
/// samples behind, or takes everything when no more than `overlap` are held.
pub open spec fn cut_point(len: nat, min_len: nat, overlap: nat) -> nat {
    if len < min_len {
        0
    } else if len > overlap {
        (len - overlap) as nat
    } else {
        len
    }
}

/// The segments cut, in order, and the samples still held after the reads
/// `reads` were fed one by one into an empty window.
pub open spec fn replay<T>(reads: Seq<Seq<T>>, min_len: nat, overlap: nat) -> (Seq<Seq<T>>, Seq<T>)
    decreases reads.len(),
{
    if reads.len() == 0 {
        (Seq::empty(), Seq::empty())
    } else {
        let (segments, held) = replay(reads.drop_last(), min_len, overlap);
        let buffer = held + reads.last();
        let cut = cut_point(buffer.len(), min_len, overlap) as int;
        if cut > 0 {
            (segments.push(buffer.take(cut)), buffer.skip(cut))
        } else {
            (segments, buffer)
        }
    }
}

/// No sample is lost, repeated or reordered: the segments cut so far,
/// one after the other, followed by what is still held, are exactly the
/// samples that were read, whatever the reads and the two thresholds were.
pub proof fn lemma_window_loses_nothing<T>(reads: Seq<Seq<T>>, min_len: nat, overlap: nat)
    ensures
        replay(reads, min_len, overlap).0.flatten() + replay(reads, min_len, overlap).1
            == reads.flatten(),
    decreases reads.len(),
{
    broadcast use Seq::lemma_flatten_push;

    if reads.len() == 0 {
        assert(reads.flatten() =~= Seq::<T>::empty());
        assert(Seq::<Seq<T>>::empty().flatten() =~= Seq::<T>::empty());
    } else {
        let (segments, held) = replay(reads.drop_last(), min_len, overlap);
        lemma_window_loses_nothing(reads.drop_last(), min_len, overlap);
        let buffer = held + reads.last();
        let cut = cut_point(buffer.len(), min_len, overlap) as int;
        assert(reads =~= reads.drop_last().push(reads.last()));
        assert(reads.flatten() =~= reads.drop_last().flatten() + reads.last());
        if cut > 0 {
            assert(buffer =~= buffer.take(cut) + buffer.skip(cut));
            assert(segments.push(buffer.take(cut)).flatten() + buffer.skip(cut) =~= segments.flatten()
                + buffer);
        }
        assert(segments.flatten() + buffer =~= (segments.flatten() + held) + reads.last());
    }
}

/// A segment is cut exactly when at least `min_len` samples are held and
/// there is a sample at all. What a cut leaves behind is the last
/// `overlap` samples, or nothing when no more than `overlap` were held.
pub proof fn lemma_cut_point_bounds(len: nat, min_len: nat, overlap: nat)
    ensures
        cut_point(len, min_len, overlap) <= len,
        cut_point(len, min_len, overlap) > 0 <==> len >= min_len && len > 0,
        cut_point(len, min_len, overlap) > 0 ==> len - cut_point(len, min_len, overlap) == if len
            > overlap {
            overlap
        } else {
            0
        },
{
}

/// Accumulation buffer with a minimum segment length and a retained tail.
pub struct SlidingWindow<T> {
    buffer: VecDeque<T>,
    min_len: usize,
    overlap: usize,
}

impl<T> View for SlidingWindow<T> {
    type V = Seq<T>;

    /// The samples held, oldest first.
    closed spec fn view(&self) -> Seq<T> {
        self.buffer@
    }
}

impl<T: Copy> SlidingWindow<T> {
    /// Samples that must be held before a segment is cut.
    pub closed spec fn min_len(&self) -> nat {
        self.min_len as nat
    }

    /// Samples that stay behind after a cut.
    pub closed spec fn overlap(&self) -> nat {
        self.overlap as nat
    }

    /// An empty window with the given thresholds.
    pub fn new(min_len: usize, overlap: usize) -> (window: Self)
        ensures
            window@ == Seq::<T>::empty(),
            window.min_len() == min_len,
            window.overlap() == overlap,
    {
        SlidingWindow { buffer: VecDeque::new(), min_len, overlap }
    }

    /// An empty window with the thresholds of the transcription loop.
    pub fn for_transcription() -> (window: Self)
        ensures
            window@ == Seq::<T>::empty(),
            window.min_len() == MIN_SEGMENT_SAMPLES,
            window.overlap() == OVERLAP_SAMPLES,
    {
        SlidingWindow {
            buffer: VecDeque::new(),
            min_len: MIN_SEGMENT_SAMPLES,
            overlap: OVERLAP_SAMPLES,
        }
    }

    /// Number of samples held.
    pub fn len(&self) -> (n: usize)
        ensures
            n == self@.len(),
    {
        self.buffer.len()
    }

    /// Appends `samples` behind what is held.
    pub fn push_samples(&mut self, samples: &[T])
        ensures
            final(self)@ == old(self)@ + samples@,
            final(self).min_len() == old(self).min_len(),
            final(self).overlap() == old(self).overlap(),
    {
        let ghost before = self.buffer@;
        let mut i: usize = 0;
        while i < samples.len()
            invariant
                i <= samples@.len(),
                self.buffer@ == before + samples@.take(i as int),
                self.min_len == old(self).min_len,
                self.overlap == old(self).overlap,
            decreases samples@.len() - i,
        {
            self.buffer.push_back(samples[i]);
            assert(samples@.take(i + 1) =~= samples@.take(i as int).push(samples@[i as int]));
            i = i + 1;
        }
        assert(samples@.take(samples@.len() as int) =~= samples@);
    }

    /// Cuts the next segment if enough samples are held.
    ///
    /// The segment is the front of the buffer up to `cut_point`; the rest
    /// stays. Below the minimum nothing changes and `None` is returned.
    pub fn take_segment(&mut self) -> (segment: Option<Vec<T>>)
        ensures
            final(self).min_len() == old(self).min_len(),
            final(self).overlap() == old(self).overlap(),
            ({
                let cut = cut_point(old(self)@.len(), old(self).min_len(), old(self).overlap()) as int;
                &&& final(self)@ == old(self)@.skip(cut)
                &&& cut == 0 <==> segment is None
                &&& segment matches Some(s) ==> s@ == old(self)@.take(cut)
            }),
    {
        let len = self.buffer.len();
        if len == 0 || len < self.min_len {
            assert(self.buffer@.skip(0) =~= self.buffer@);
            return None;
        }
        let cut = if len > self.overlap {
            len - self.overlap
        } else {
            len
        };
        let ghost held = self.buffer@;
        let mut segment: Vec<T> = Vec::new();
        let mut taken: usize = 0;
        while taken < cut
            invariant
                taken <= cut <= held.len(),
                self.min_len == old(self).min_len,
                self.overlap == old(self).overlap,
                segment@ == held.take(taken as int),
                self.buffer@ == held.skip(taken as int),
            decreases cut - taken,
        {
            match self.buffer.pop_front() {
                Some(sample) => {
                    segment.push(sample);
                    assert(held.take(taken + 1) =~= held.take(taken as int).push(sample));
                    assert(held.skip(taken as int).subrange(1, held.len() - taken) =~= held.skip(
                        taken + 1,
                    ));
                },
                None => {},
            }
            taken = taken + 1;
        }
        Some(segment)
    }

    /// Appends one read and cuts a segment if that made one ready.
    pub fn feed(&mut self, samples: &[T]) -> (segment: Option<Vec<T>>)
        ensures
            final(self).min_len() == old(self).min_len(),
            final(self).overlap() == old(self).overlap(),
            ({
                let buffer = old(self)@ + samples@;
                let cut = cut_point(buffer.len(), old(self).min_len(), old(self).overlap()) as int;
                &&& final(self)@ == buffer.skip(cut)
                &&& cut == 0 <==> segment is None
                &&& segment matches Some(s) ==> s@ == buffer.take(cut)
            }),
    {
        self.push_samples(samples);
        self.take_segment()
    }
}

} // verus!
