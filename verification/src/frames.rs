//! Frames: runs of samples of one fixed length.
//!
//! Detectors and consumers take audio a frame at a time. Samples arrive in
//! chunks of any length, so the whole frames are cut off as they fill up
//! and the rest waits for more.

use vstd::arithmetic::div_mod::lemma_fundamental_div_mod;
use vstd::arithmetic::div_mod::lemma_fundamental_div_mod_converse;
use vstd::prelude::*;

verus! {

/// The frames of `held` as sequences of samples.
pub open spec fn frames_view<T>(held: Seq<Vec<T>>) -> Seq<Seq<T>> {
    held.map_values(|frame: Vec<T>| frame@)
}

/// The whole frames of `frame_len` samples that `samples` fill, in order.
pub open spec fn whole_frames<T>(samples: Seq<T>, frame_len: nat) -> Seq<Seq<T>> {
    Seq::new(
        samples.len() / frame_len,
        |f: int| samples.subrange(f * frame_len, (f + 1) * frame_len),
    )
}

/// The samples behind the last whole frame: fewer than `frame_len`.
pub open spec fn partial_frame<T>(samples: Seq<T>, frame_len: nat) -> Seq<T> {
    samples.skip(((samples.len() / frame_len) * frame_len) as int)
}

/// The first `k` whole frames hold the first `k * frame_len` samples.
proof fn lemma_whole_frames_prefix<T>(samples: Seq<T>, frame_len: nat, k: nat)
    requires
        frame_len > 0,
        k <= samples.len() / frame_len,
    ensures
        k * frame_len <= samples.len(),
        whole_frames(samples, frame_len).take(k as int).flatten() == samples.take(
            (k * frame_len) as int,
        ),
    decreases k,
{
    let frames = whole_frames(samples, frame_len);
    let len = samples.len() as int;
    let unit = frame_len as int;
    lemma_fundamental_div_mod(len, unit);
    assert(k * unit <= len) by (nonlinear_arith)
        requires
            len == unit * (len / unit) + len % unit,
            0 <= len % unit,
            0 <= k <= len / unit,
            unit > 0,
    ;
    if k == 0 {
        assert(0 * frame_len == 0) by (nonlinear_arith);
        assert(frames.take(0) =~= Seq::<Seq<T>>::empty());
        assert(frames.take(0).flatten() =~= Seq::<T>::empty());
        assert(samples.take(0) =~= Seq::<T>::empty());
    } else {
        let done = (k - 1) as nat;
        lemma_whole_frames_prefix(samples, frame_len, done);
        assert(k * frame_len == done * frame_len + frame_len) by (nonlinear_arith)
            requires
                k == done + 1,
        ;
        let last = frames[done as int];
        assert(frames.take(k as int) =~= frames.take(done as int).push(last));
        frames.take(done as int).lemma_flatten_push(last);
        assert(samples.take((done * frame_len) as int) + last =~= samples.take(
            (k * frame_len) as int,
        ));
    }
}

/// Framing loses nothing: the whole frames, one after the other, followed
/// by the partial frame are the samples. Every whole frame has `frame_len`
/// samples and the partial frame has fewer.
pub proof fn lemma_whole_frames_lose_nothing<T>(samples: Seq<T>, frame_len: nat)
    requires
        frame_len > 0,
    ensures
        whole_frames(samples, frame_len).flatten() + partial_frame(samples, frame_len) == samples,
        partial_frame(samples, frame_len).len() == samples.len() % frame_len,
        partial_frame(samples, frame_len).len() < frame_len,
        whole_frames(samples, frame_len).flatten().len() == (samples.len() / frame_len)
            * frame_len,
        forall|f: int|
            0 <= f < whole_frames(samples, frame_len).len() ==> (#[trigger] whole_frames(
                samples,
                frame_len,
            )[f]).len() == frame_len,
{
    let frames = whole_frames(samples, frame_len);
    let count = samples.len() / frame_len;
    let len = samples.len() as int;
    let unit = frame_len as int;
    lemma_fundamental_div_mod(len, unit);
    lemma_whole_frames_prefix(samples, frame_len, count);
    assert(count * unit == unit * (len / unit)) by (nonlinear_arith)
        requires
            count == len / unit,
    ;
    assert(frames.take(count as int) =~= frames);
    let cut = (count * frame_len) as int;
    assert(samples.take(cut) + samples.skip(cut) =~= samples);
    assert forall|f: int| 0 <= f < frames.len() implies (#[trigger] frames[f]).len()
        == frame_len by {
        assert(0 <= f * unit && (f + 1) * unit == f * unit + unit && (f + 1) * unit <= count * unit)
            by (nonlinear_arith)
            requires
                0 <= f < count,
                unit > 0,
        ;
    }
}

/// Joining what was held with what arrives and framing the whole gives
/// the frames that framing piece by piece gives: the whole frames of
/// `held + more` are the whole frames of `held` followed by those of the
/// partial frame of `held` joined with `more`.
pub proof fn lemma_whole_frames_by_pieces<T>(held: Seq<T>, more: Seq<T>, frame_len: nat)
    requires
        frame_len > 0,
    ensures
        whole_frames(held + more, frame_len) == whole_frames(held, frame_len) + whole_frames(
            partial_frame(held, frame_len) + more,
            frame_len,
        ),
        partial_frame(held + more, frame_len) == partial_frame(
            partial_frame(held, frame_len) + more,
            frame_len,
        ),
{
    let unit = frame_len as int;
    let all = held + more;
    let rest = partial_frame(held, frame_len) + more;
    let first = held.len() as int / unit;
    let second = rest.len() as int / unit;
    lemma_fundamental_div_mod(held.len() as int, unit);
    lemma_fundamental_div_mod(rest.len() as int, unit);
    let carried = held.len() as int % unit;
    assert(first * unit == unit * first) by (nonlinear_arith);
    assert(second * unit == unit * second) by (nonlinear_arith);
    assert(partial_frame(held, frame_len).len() == carried);
    assert(rest.len() == carried + more.len());
    assert(all.len() == (first + second) * unit + rest.len() as int % unit) by (nonlinear_arith)
        requires
            all.len() == held.len() + more.len(),
            held.len() == unit * first + carried,
            rest.len() == carried + more.len(),
            rest.len() == unit * second + rest.len() as int % unit,
    ;
    lemma_fundamental_div_mod_converse(
        all.len() as int,
        unit,
        first + second,
        rest.len() as int % unit,
    );
    let left = whole_frames(all, frame_len);
    let right = whole_frames(held, frame_len) + whole_frames(rest, frame_len);
    assert(left.len() == right.len());
    assert forall|f: int| 0 <= f < left.len() implies left[f] == right[f] by {
        assert(0 <= f * unit && (f + 1) * unit == f * unit + unit) by (nonlinear_arith)
            requires
                0 <= f,
                unit > 0,
        ;
        if f < first {
            assert((f + 1) * unit <= first * unit) by (nonlinear_arith)
                requires
                    f < first,
                    unit > 0,
            ;
            assert(all.subrange(f * unit, (f + 1) * unit) =~= held.subrange(
                f * unit,
                (f + 1) * unit,
            ));
        } else {
            let g = f - first;
            assert(g * unit == f * unit - first * unit && (g + 1) * unit == g * unit + unit && 0
                <= g * unit && (g + 1) * unit <= second * unit) by (nonlinear_arith)
                requires
                    g == f - first,
                    0 <= g < second,
                    unit > 0,
            ;
            assert(all.subrange(f * unit, (f + 1) * unit) =~= rest.subrange(
                g * unit,
                (g + 1) * unit,
            ));
        }
    }
    assert(left =~= right);
    assert((first + second) * unit == first * unit + second * unit) by (nonlinear_arith);
    assert(partial_frame(all, frame_len) =~= partial_frame(rest, frame_len));
}

/// An owned copy of `frame`.
pub fn copy_frame<T: Copy>(frame: &[T]) -> (copy: Vec<T>)
    ensures
        copy@ == frame@,
{
    let mut copy: Vec<T> = Vec::new();
    let mut i: usize = 0;
    while i < frame.len()
        invariant
            i <= frame@.len(),
            copy@ == frame@.take(i as int),
        decreases frame@.len() - i,
    {
        copy.push(frame[i]);
        assert(frame@.take(i + 1) =~= frame@.take(i as int).push(frame@[i as int]));
        i = i + 1;
    }
    assert(frame@.take(frame@.len() as int) =~= frame@);
    copy
}

/// The samples of all `frames`, one frame after the other.
pub fn join_frames<T: Copy>(frames: &Vec<Vec<T>>) -> (joined: Vec<T>)
    ensures
        joined@ == frames_view(frames@).flatten(),
{
    let mut joined: Vec<T> = Vec::new();
    let mut f: usize = 0;
    assert(frames_view(frames@.take(0)) =~= Seq::<Seq<T>>::empty());
    assert(Seq::<Seq<T>>::empty().flatten() =~= Seq::<T>::empty());
    while f < frames.len()
        invariant
            f <= frames@.len(),
            joined@ == frames_view(frames@.take(f as int)).flatten(),
        decreases frames@.len() - f,
    {
        let frame = &frames[f];
        let ghost start = joined@;
        let mut i: usize = 0;
        while i < frame.len()
            invariant
                i <= frame@.len(),
                joined@ == start + frame@.take(i as int),
            decreases frame@.len() - i,
        {
            joined.push(frame[i]);
            assert(frame@.take(i + 1) =~= frame@.take(i as int).push(frame@[i as int]));
            i = i + 1;
        }
        proof {
            assert(frame@.take(frame@.len() as int) =~= frame@);
            let done = frames_view(frames@.take(f as int));
            assert(frames_view(frames@.take(f + 1)) =~= done.push(frame@));
            done.lemma_flatten_push(frame@);
        }
        f = f + 1;
    }
    assert(frames@.take(frames@.len() as int) =~= frames@);
    joined
}

/// Cuts the whole frames off the front of `pending` and leaves the
/// partial frame behind.
pub fn take_whole_frames<T: Copy>(pending: &mut Vec<T>, frame_len: usize) -> (frames: Vec<Vec<T>>)
    requires
        frame_len > 0,
    ensures
        frames_view(frames@) == whole_frames(old(pending)@, frame_len as nat),
        final(pending)@ == partial_frame(old(pending)@, frame_len as nat),
{
    let ghost held = pending@;
    let ghost unit = frame_len as int;
    let len = pending.len();
    let count = len / frame_len;
    proof {
        lemma_fundamental_div_mod(len as int, unit);
        assert(count * unit == unit * (len as int / unit)) by (nonlinear_arith)
            requires
                count == len as int / unit,
        ;
    }
    let mut frames: Vec<Vec<T>> = Vec::new();
    let mut f: usize = 0;
    while f < count
        invariant
            f <= count,
            unit == frame_len,
            frame_len > 0,
            pending@ == held,
            len == held.len(),
            count == len / frame_len,
            count * unit <= len,
            frames@.len() == f,
            forall|g: int|
                0 <= g < f ==> (#[trigger] frames@[g])@ == whole_frames(held, frame_len as nat)[g],
        decreases count - f,
    {
        proof {
            assert(0 <= f * unit && (f + 1) * unit == f * unit + unit && (f + 1) * unit <= count
                * unit) by (nonlinear_arith)
                requires
                    0 <= f < count,
                    unit > 0,
            ;
        }
        let start = f * frame_len;
        let end = start + frame_len;
        let mut frame: Vec<T> = Vec::new();
        let mut i: usize = start;
        while i < end
            invariant
                start <= i <= end <= pending@.len(),
                frame@ == pending@.subrange(start as int, i as int),
            decreases end - i,
        {
            frame.push(pending[i]);
            assert(pending@.subrange(start as int, i + 1) =~= pending@.subrange(
                start as int,
                i as int,
            ).push(pending@[i as int]));
            i = i + 1;
        }
        frames.push(frame);
        f = f + 1;
    }
    let mut rest = pending.split_off(count * frame_len);
    core::mem::swap(&mut rest, pending);
    proof {
        assert(frames_view(frames@) =~= whole_frames(held, frame_len as nat));
        assert(pending@ =~= partial_frame(held, frame_len as nat));
    }
    frames
}

} // verus!
