//! Streaming sample-rate conversion by linear interpolation.
//!
//! Output sample `j` sits at input time `j * in_rate / out_rate`. It is made
//! from the two input samples around that time, weighted by how far the time
//! lies past the left one. The converter works out, exactly and in integers,
//! which two samples and which weight belong to each output sample: a
//! [`Tap`]. Blending the two values is left to a function supplied by the
//! caller, so that the sample type stays open.
//!
//! An output sample is produced as soon as its right neighbour has been
//! consumed. What is produced therefore depends on the samples consumed so
//! far and not on how they were cut into chunks.

use crate::frames::copy_frame;
use crate::frames::frames_view;
use crate::frames::lemma_whole_frames_lose_nothing;
use crate::frames::partial_frame;
use crate::frames::take_whole_frames;
use crate::frames::whole_frames;
use vstd::arithmetic::div_mod::lemma_fundamental_div_mod;
use vstd::arithmetic::div_mod::lemma_fundamental_div_mod_converse;
use vstd::prelude::*;

verus! {

/// One output sample before blending: `left + (right - left) * offset / out_rate`.
#[derive(Clone, Copy, Debug)]
pub struct Tap<T> {
    /// The input sample at or before the output time.
    pub left: T,
    /// The input sample after `left`.
    pub right: T,
    /// Distance of the output time from `left`, in units of `1 / out_rate`
    /// of an input period; always below `out_rate`.
    pub offset: u32,
}

/// Number of output samples that `consumed` input samples give: the output
/// times that lie strictly before the last consumed sample, which is
/// `(consumed - 1) * out_rate / in_rate`, rounded up.
pub open spec fn output_count(in_rate: nat, out_rate: nat, consumed: nat) -> nat {
    if consumed == 0 || in_rate == 0 {
        0
    } else {
        (((consumed - 1) * out_rate + in_rate - 1) / (in_rate as int)) as nat
    }
}

/// The tap of output sample `j` over the input `input`.
pub open spec fn tap_at<T>(in_rate: nat, out_rate: nat, input: Seq<T>, j: int) -> Tap<T> {
    let time = j * in_rate;
    Tap {
        left: input[time / (out_rate as int)],
        right: input[time / (out_rate as int) + 1],
        offset: (time % (out_rate as int)) as u32,
    }
}

/// Every tap that the input `input` gives, in output order.
pub open spec fn taps<T>(in_rate: nat, out_rate: nat, input: Seq<T>) -> Seq<Tap<T>> {
    Seq::new(output_count(in_rate, out_rate, input.len()), |j: int| tap_at(in_rate, out_rate, input, j))
}

/// The taps that consuming `chunk` adds when `before` was consumed already.
pub open spec fn taps_added<T>(in_rate: nat, out_rate: nat, before: Seq<T>, chunk: Seq<T>) -> Seq<
    Tap<T>,
> {
    taps(in_rate, out_rate, before + chunk).subrange(
        output_count(in_rate, out_rate, before.len()) as int,
        output_count(in_rate, out_rate, before.len() + chunk.len()) as int,
    )
}

/// The taps produced, one after the other, when `chunks` are consumed chunk
/// by chunk starting with nothing consumed.
pub open spec fn taps_by_chunk<T>(in_rate: nat, out_rate: nat, chunks: Seq<Seq<T>>) -> Seq<Tap<T>>
    decreases chunks.len(),
{
    if chunks.len() == 0 {
        Seq::empty()
    } else {
        taps_by_chunk(in_rate, out_rate, chunks.drop_last()) + taps_added(
            in_rate,
            out_rate,
            chunks.drop_last().flatten(),
            chunks.last(),
        )
    }
}

/// `produced` holds, tap by tap, what `blend` returned for the tap, the
/// output rate `rate` passed along.
pub open spec fn blended_by<T, F: Fn(T, T, u32, u32) -> T>(
    blend: F,
    rate: u32,
    taps: Seq<Tap<T>>,
    produced: Seq<T>,
) -> bool {
    &&& produced.len() == taps.len()
    &&& forall|k: int|
        0 <= k < produced.len() ==> call_ensures(
            blend,
            (taps[k].left, taps[k].right, taps[k].offset, rate),
            #[trigger] produced[k],
        )
}

/// `blend` returns one value for each tap: whatever it may return for the
/// same arguments is the same.
pub open spec fn single_valued<T, F: Fn(T, T, u32, u32) -> T>(blend: F) -> bool {
    forall|left: T, right: T, offset: u32, rate: u32, one: T, other: T|
        #![trigger
            call_ensures(blend, (left, right, offset, rate), one),
            call_ensures(blend, (left, right, offset, rate), other),
        ]
        call_ensures(blend, (left, right, offset, rate), one) && call_ensures(
            blend,
            (left, right, offset, rate),
            other,
        ) ==> one == other
}

/// With a single-valued `blend` the taps determine the samples: two
/// outputs blended from the same taps are the same, sample for sample.
/// Together with `lemma_chunking_is_irrelevant` this makes the output
/// samples independent of how the input was cut into chunks.
pub proof fn lemma_taps_determine_samples<T, F: Fn(T, T, u32, u32) -> T>(
    blend: F,
    rate: u32,
    taps: Seq<Tap<T>>,
    one: Seq<T>,
    other: Seq<T>,
)
    requires
        single_valued(blend),
        blended_by(blend, rate, taps, one),
        blended_by(blend, rate, taps, other),
    ensures
        one == other,
{
    assert forall|k: int| 0 <= k < one.len() implies one[k] == other[k] by {
        assert(call_ensures(blend, (taps[k].left, taps[k].right, taps[k].offset, rate), one[k]));
        assert(call_ensures(blend, (taps[k].left, taps[k].right, taps[k].offset, rate), other[k]));
    }
    assert(one =~= other);
}

/// Blending a run of taps piece by piece gives what blending the whole run
/// gives: if `first` is blended from `taps_first` and `second` from
/// `taps_second`, then `first + second` is blended from the two runs joined.
pub proof fn lemma_blended_pieces_join<T, F: Fn(T, T, u32, u32) -> T>(
    blend: F,
    rate: u32,
    taps_first: Seq<Tap<T>>,
    first: Seq<T>,
    taps_second: Seq<Tap<T>>,
    second: Seq<T>,
)
    requires
        blended_by(blend, rate, taps_first, first),
        blended_by(blend, rate, taps_second, second),
    ensures
        blended_by(blend, rate, taps_first + taps_second, first + second),
{
    let taps = taps_first + taps_second;
    let produced = first + second;
    assert forall|k: int| 0 <= k < produced.len() implies call_ensures(
        blend,
        (taps[k].left, taps[k].right, taps[k].offset, rate),
        #[trigger] produced[k],
    ) by {
        if k < first.len() {
            assert(produced[k] == first[k]);
            assert(taps[k] == taps_first[k]);
        } else {
            assert(produced[k] == second[k - first.len()]);
            assert(taps[k] == taps_second[k - first.len()]);
        }
    }
}

/// `outputs` holds, chunk by chunk, what pushing `chunks` one after the
/// other into a fresh converter may return.
pub open spec fn blended_by_chunk<T, F: Fn(T, T, u32, u32) -> T>(
    blend: F,
    in_rate: nat,
    out_rate: nat,
    chunks: Seq<Seq<T>>,
    outputs: Seq<Seq<T>>,
) -> bool {
    &&& outputs.len() == chunks.len()
    &&& forall|i: int|
        0 <= i < chunks.len() ==> blended_by(
            blend,
            out_rate as u32,
            taps_added(in_rate, out_rate, chunks.take(i).flatten(), chunks[i]),
            #[trigger] outputs[i],
        )
}

/// The outputs of pushing chunk by chunk, joined, are blended from the
/// taps of pushing chunk by chunk, joined.
proof fn lemma_chunk_outputs_are_blended<T, F: Fn(T, T, u32, u32) -> T>(
    blend: F,
    in_rate: nat,
    out_rate: nat,
    chunks: Seq<Seq<T>>,
    outputs: Seq<Seq<T>>,
)
    requires
        blended_by_chunk(blend, in_rate, out_rate, chunks, outputs),
    ensures
        blended_by(
            blend,
            out_rate as u32,
            taps_by_chunk(in_rate, out_rate, chunks),
            outputs.flatten(),
        ),
    decreases chunks.len(),
{
    if chunks.len() == 0 {
        assert(outputs.flatten() =~= Seq::<T>::empty());
    } else {
        let fewer = chunks.drop_last();
        let before = outputs.drop_last();
        assert forall|i: int| 0 <= i < fewer.len() implies blended_by(
            blend,
            out_rate as u32,
            taps_added(in_rate, out_rate, fewer.take(i).flatten(), fewer[i]),
            #[trigger] before[i],
        ) by {
            assert(fewer.take(i) =~= chunks.take(i));
            assert(before[i] == outputs[i]);
        }
        lemma_chunk_outputs_are_blended(blend, in_rate, out_rate, fewer, before);
        assert(chunks.take(chunks.len() - 1) =~= fewer);
        assert(outputs =~= before.push(outputs.last()));
        before.lemma_flatten_push(outputs.last());
        lemma_blended_pieces_join(
            blend,
            out_rate as u32,
            taps_by_chunk(in_rate, out_rate, fewer),
            before.flatten(),
            taps_added(in_rate, out_rate, fewer.flatten(), chunks.last()),
            outputs.last(),
        );
    }
}

/// The output does not depend on the chunking: with a single-valued
/// `blend`, the samples returned for an input pushed chunk by chunk are,
/// joined, the samples returned for the same input pushed in one piece.
pub proof fn lemma_chunked_output_is_whole_output<T, F: Fn(T, T, u32, u32) -> T>(
    blend: F,
    in_rate: nat,
    out_rate: nat,
    chunks: Seq<Seq<T>>,
    outputs: Seq<Seq<T>>,
    whole: Seq<T>,
)
    requires
        in_rate > 0,
        out_rate > 0,
        single_valued(blend),
        blended_by_chunk(blend, in_rate, out_rate, chunks, outputs),
        blended_by(
            blend,
            out_rate as u32,
            taps_added(in_rate, out_rate, Seq::empty(), chunks.flatten()),
            whole,
        ),
    ensures
        outputs.flatten() == whole,
{
    lemma_chunk_outputs_are_blended(blend, in_rate, out_rate, chunks, outputs);
    lemma_chunking_is_irrelevant(in_rate, out_rate, chunks);
    lemma_taps_determine_samples(
        blend,
        out_rate as u32,
        taps_by_chunk(in_rate, out_rate, chunks),
        outputs.flatten(),
        whole,
    );
}

/// `count` is the least number of output periods that reach the last of
/// `consumed` input samples.
pub open spec fn reaches_last(in_rate: nat, out_rate: nat, consumed: nat, count: nat) -> bool {
    &&& count * in_rate >= (consumed - 1) * out_rate
    &&& count == 0 || (count - 1) * in_rate < (consumed - 1) * out_rate
}

/// `output_count` is the one number that `reaches_last` describes.
pub proof fn lemma_output_count_unique(in_rate: nat, out_rate: nat, consumed: nat, count: nat)
    requires
        in_rate > 0,
        consumed > 0,
    ensures
        reaches_last(in_rate, out_rate, consumed, count) <==> count == output_count(
            in_rate,
            out_rate,
            consumed,
        ),
{
    let a = (consumed - 1) * out_rate;
    let b = in_rate as int;
    let q = (a + b - 1) / b;
    assert(a >= 0) by (nonlinear_arith)
        requires
            a == (consumed - 1) * out_rate,
            consumed > 0,
    ;
    lemma_fundamental_div_mod(a + b - 1, b);
    let r = (a + b - 1) % b;
    assert(0 <= r < b);
    assert(a + b - 1 == b * q + r);
    assert(q >= 0) by (nonlinear_arith)
        requires
            a + b - 1 == b * q + r,
            a >= 0,
            b > 0,
            r < b,
    ;
    assert(q * b >= a && (q - 1) * b < a) by (nonlinear_arith)
        requires
            a + b - 1 == b * q + r,
            0 <= r < b,
    ;
    assert(q == output_count(in_rate, out_rate, consumed));
    if reaches_last(in_rate, out_rate, consumed, count) {
        let c = count as int;
        assert(c == q) by (nonlinear_arith)
            requires
                q * b >= a,
                (q - 1) * b < a,
                c * b >= a,
                c == 0 || (c - 1) * b < a,
                a >= 0,
                b > 0,
                c >= 0,
                q >= 0,
        ;
    }
}

/// Consuming more never takes an output sample back.
pub proof fn lemma_output_count_grows(in_rate: nat, out_rate: nat, fewer: nat, more: nat)
    requires
        fewer <= more,
    ensures
        output_count(in_rate, out_rate, fewer) <= output_count(in_rate, out_rate, more),
{
    if in_rate > 0 && fewer > 0 {
        let a = output_count(in_rate, out_rate, fewer) as int;
        let b = output_count(in_rate, out_rate, more) as int;
        lemma_output_count_unique(in_rate, out_rate, fewer, a as nat);
        lemma_output_count_unique(in_rate, out_rate, more, b as nat);
        let i = in_rate as int;
        let o = out_rate as int;
        let f = fewer as int;
        let m = more as int;
        assert(a <= b) by (nonlinear_arith)
            requires
                b * i >= (m - 1) * o,
                a == 0 || (a - 1) * i < (f - 1) * o,
                f <= m,
                i > 0,
                o >= 0,
                a >= 0,
                b >= 0,
        ;
    }
}

/// Both neighbours of every output sample that `consumed` input samples
/// give lie among those samples, and its offset is below `out_rate`.
pub proof fn lemma_tap_in_range(in_rate: nat, out_rate: nat, consumed: nat, j: int)
    requires
        in_rate > 0,
        out_rate > 0,
        0 <= j < output_count(in_rate, out_rate, consumed),
    ensures
        0 <= (j * in_rate) / (out_rate as int),
        (j * in_rate) / (out_rate as int) + 1 < consumed,
        0 <= (j * in_rate) % (out_rate as int) < out_rate,
{
    let count = output_count(in_rate, out_rate, consumed) as int;
    lemma_output_count_unique(in_rate, out_rate, consumed, count as nat);
    let i = in_rate as int;
    let o = out_rate as int;
    let n = consumed as int;
    let time = j * i;
    assert(0 <= time < (n - 1) * o) by (nonlinear_arith)
        requires
            time == j * i,
            0 <= j < count,
            (count - 1) * i < (n - 1) * o,
            i > 0,
    ;
    lemma_fundamental_div_mod(time, o);
    let q = time / o;
    let r = time % o;
    assert(0 <= q < n - 1) by (nonlinear_arith)
        requires
            time == o * q + r,
            0 <= r < o,
            0 <= time < (n - 1) * o,
    ;
}

/// Chunking is irrelevant: consuming an input chunk by chunk produces, in
/// total, exactly the taps that consuming it in one piece produces.
pub proof fn lemma_chunking_is_irrelevant<T>(in_rate: nat, out_rate: nat, chunks: Seq<Seq<T>>)
    requires
        in_rate > 0,
        out_rate > 0,
    ensures
        taps_by_chunk(in_rate, out_rate, chunks) == taps(in_rate, out_rate, chunks.flatten()),
        taps_by_chunk(in_rate, out_rate, chunks) == taps_added(
            in_rate,
            out_rate,
            Seq::empty(),
            chunks.flatten(),
        ),
    decreases chunks.len(),
{
    broadcast use Seq::lemma_flatten_push;

    let whole = chunks.flatten();
    if chunks.len() == 0 {
        assert(whole =~= Seq::<T>::empty());
        assert(taps(in_rate, out_rate, whole) =~= Seq::<Tap<T>>::empty());
    } else {
        let before = chunks.drop_last().flatten();
        let chunk = chunks.last();
        lemma_chunking_is_irrelevant(in_rate, out_rate, chunks.drop_last());
        assert(chunks =~= chunks.drop_last().push(chunk));
        assert(whole =~= before + chunk);
        lemma_output_count_grows(in_rate, out_rate, before.len(), whole.len());
        let split = output_count(in_rate, out_rate, before.len()) as int;
        assert forall|j: int| 0 <= j < split implies tap_at(in_rate, out_rate, before, j) == tap_at(
            in_rate,
            out_rate,
            whole,
            j,
        ) by {
            lemma_tap_in_range(in_rate, out_rate, before.len(), j);
        }
        assert(taps(in_rate, out_rate, before) =~= taps(in_rate, out_rate, whole).subrange(0, split));
        assert(taps_by_chunk(in_rate, out_rate, chunks) =~= taps(in_rate, out_rate, whole));
    }
    assert(Seq::<T>::empty() + whole =~= whole);
    assert(taps_added(in_rate, out_rate, Seq::<T>::empty(), whole) =~= taps(
        in_rate,
        out_rate,
        whole,
    ));
}

/// The rate is kept: `seconds` whole seconds of input give `seconds`
/// seconds of output, less at most one sample, when the rate is not raised;
/// when it is lowered, not even that one is missing.
pub proof fn lemma_rate_is_kept(in_rate: nat, out_rate: nat, seconds: nat)
    requires
        0 < out_rate <= in_rate,
        seconds > 0,
    ensures
        seconds * out_rate - 1 <= output_count(in_rate, out_rate, seconds * in_rate) <= seconds
            * out_rate,
        out_rate < in_rate ==> output_count(in_rate, out_rate, seconds * in_rate) == seconds
            * out_rate,
{
    let i = in_rate as int;
    let o = out_rate as int;
    let k = seconds as int;
    let n = seconds * in_rate;
    assert(n > 0) by (nonlinear_arith)
        requires
            n == k * i,
            k > 0,
            i > 0,
    ;
    let full = (seconds * out_rate) as nat;
    assert(full >= 1) by (nonlinear_arith)
        requires
            full == k * o,
            k > 0,
            o > 0,
    ;
    if out_rate < in_rate {
        assert(full * i >= (n - 1) * o && (full - 1) * i < (n - 1) * o) by (nonlinear_arith)
            requires
                n == k * i,
                full == k * o,
                0 < o < i,
                k > 0,
        ;
        assert(reaches_last(in_rate, out_rate, n, full));
        lemma_output_count_unique(in_rate, out_rate, n, full);
    } else {
        let short = (full - 1) as nat;
        assert(short * i >= (n - 1) * o && (short == 0 || (short - 1) * i < (n - 1) * o))
            by (nonlinear_arith)
            requires
                n == k * i,
                short == k * o - 1,
                o == i,
                o > 0,
                k > 0,
        ;
        assert(reaches_last(in_rate, out_rate, n, short));
        lemma_output_count_unique(in_rate, out_rate, n, short);
    }
}

/// Streaming converter from `in_rate` to `out_rate`.
///
/// It keeps the last input sample and the time of the next output sample
/// relative to it, which is all that the next chunk needs.
pub struct Resampler<T> {
    in_rate: u32,
    out_rate: u32,
    last: Option<T>,
    phase: u64,
    consumed: Ghost<Seq<T>>,
}

impl<T: Copy> Resampler<T> {
    /// Input rate in Hz.
    pub closed spec fn in_rate(&self) -> nat {
        self.in_rate as nat
    }

    /// Output rate in Hz.
    pub closed spec fn out_rate(&self) -> nat {
        self.out_rate as nat
    }

    /// Every input sample consumed so far, oldest first.
    pub closed spec fn consumed(&self) -> Seq<T> {
        self.consumed@
    }

    /// The carried state agrees with the samples consumed.
    pub closed spec fn wf(&self) -> bool {
        let n = self.consumed@.len();
        &&& self.in_rate > 0
        &&& self.out_rate > 0
        &&& match self.last {
            None => n == 0 && self.phase == 0,
            Some(sample) => {
                &&& n > 0
                &&& sample == self.consumed@.last()
                &&& self.phase as int == output_count(self.in_rate as nat, self.out_rate as nat, n)
                    * self.in_rate - (n - 1) * self.out_rate
            },
        }
    }

    /// A converter that has consumed nothing, or `None` if a rate is zero.
    pub fn new(in_rate: u32, out_rate: u32) -> (resampler: Option<Self>)
        ensures
            resampler is Some <==> in_rate > 0 && out_rate > 0,
            resampler matches Some(r) ==> {
                &&& r.wf()
                &&& r.in_rate() == in_rate
                &&& r.out_rate() == out_rate
                &&& r.consumed() == Seq::<T>::empty()
            },
    {
        if in_rate == 0 || out_rate == 0 {
            None
        } else {
            Some(Resampler { in_rate, out_rate, last: None, phase: 0, consumed: Ghost(Seq::empty()) })
        }
    }

    /// Consumes `chunk` and returns the taps that it completes.
    ///
    /// An empty chunk changes nothing and returns nothing.
    pub fn push_taps(&mut self, chunk: &[T]) -> (added: Vec<Tap<T>>)
        requires
            old(self).wf(),
        ensures
            final(self).wf(),
            final(self).in_rate() == old(self).in_rate(),
            final(self).out_rate() == old(self).out_rate(),
            final(self).consumed() == old(self).consumed() + chunk@,
            added@ == taps_added(
                old(self).in_rate(),
                old(self).out_rate(),
                old(self).consumed(),
                chunk@,
            ),
    {
        let ghost in_rate = self.in_rate as nat;
        let ghost out_rate = self.out_rate as nat;
        let ghost before = self.consumed@;
        let ghost whole = before + chunk@;
        let ghost first = output_count(in_rate, out_rate, before.len());
        let ghost next: nat = first;
        let mut added: Vec<Tap<T>> = Vec::new();
        let mut i: usize = 0;
        while i < chunk.len()
            invariant
                i <= chunk@.len(),
                self.wf(),
                self.in_rate == in_rate,
                self.out_rate == out_rate,
                whole == before + chunk@,
                self.consumed@ == before + chunk@.take(i as int),
                first == output_count(in_rate, out_rate, before.len()),
                next == output_count(in_rate, out_rate, self.consumed@.len()),
                first <= next,
                added@.len() == next - first,
                forall|k: int|
                    0 <= k < added@.len() ==> #[trigger] added@[k] == tap_at(
                        in_rate,
                        out_rate,
                        whole,
                        first + k,
                    ),
            decreases chunk@.len() - i,
        {
            let sample = chunk[i];
            let ghost held = self.consumed@;
            let ghost n = held.len();
            assert(whole[n as int] == sample);
            match self.last {
                None => {
                    proof {
                        assert(0 * in_rate == 0 && 0 * out_rate == 0) by (nonlinear_arith);
                        assert(reaches_last(in_rate, out_rate, 1, 0));
                        lemma_output_count_unique(in_rate, out_rate, 1, 0);
                    }
                },
                Some(left) => {
                    assert(whole[n - 1] == left);
                    proof {
                        lemma_output_count_unique(in_rate, out_rate, n, next);
                    }
                    let mut phase = self.phase;
                    assert(phase < in_rate && n * out_rate == (n - 1) * out_rate + out_rate && (
                    next == 0 || (next - 1) * in_rate < n * out_rate)) by (nonlinear_arith)
                        requires
                            phase == next * in_rate - (n - 1) * out_rate,
                            next == 0 || (next - 1) * in_rate < (n - 1) * out_rate,
                            n > 0,
                            in_rate > 0,
                            phase >= 0,
                    ;
                    while phase < self.out_rate as u64
                        invariant
                            self.in_rate == in_rate,
                            self.out_rate == out_rate,
                            in_rate > 0,
                            out_rate > 0,
                            n > 0,
                            n + 1 <= whole.len(),
                            whole[n - 1] == left,
                            whole[n as int] == sample,
                            phase as int == next * in_rate - (n - 1) * out_rate,
                            phase < in_rate + out_rate,
                            next == 0 || (next - 1) * in_rate < n * out_rate,
                            first <= next,
                            added@.len() == next - first,
                            forall|k: int|
                                0 <= k < added@.len() ==> #[trigger] added@[k] == tap_at(
                                    in_rate,
                                    out_rate,
                                    whole,
                                    first + k,
                                ),
                        decreases out_rate + in_rate - phase,
                    {
                        proof {
                            let time = next * in_rate;
                            assert(time == (n - 1) * out_rate + phase);
                            lemma_fundamental_div_mod_converse(
                                time as int,
                                out_rate as int,
                                n - 1,
                                phase as int,
                            );
                            assert(tap_at(in_rate, out_rate, whole, next as int) == Tap {
                                left,
                                right: sample,
                                offset: phase as u32,
                            });
                        }
                        added.push(Tap { left, right: sample, offset: phase as u32 });
                        proof {
                            assert((next + 1) * in_rate == next * in_rate + in_rate)
                                by (nonlinear_arith);
                            assert(next * in_rate < n * out_rate) by (nonlinear_arith)
                                requires
                                    phase as int == next * in_rate - (n - 1) * out_rate,
                                    phase < out_rate,
                            ;
                            next = next + 1;
                        }
                        phase = phase + self.in_rate as u64;
                    }
                    proof {
                        assert(n * out_rate == (n - 1) * out_rate + out_rate) by (nonlinear_arith);
                        assert(reaches_last(in_rate, out_rate, n + 1, next));
                        lemma_output_count_unique(in_rate, out_rate, n + 1, next);
                    }
                    self.phase = phase - self.out_rate as u64;
                },
            }
            self.last = Some(sample);
            self.consumed = Ghost(held.push(sample));
            proof {
                assert(chunk@.take(i + 1) =~= chunk@.take(i as int).push(sample));
                assert(self.consumed@ =~= before + chunk@.take(i + 1));
                assert(self.consumed@.last() == sample);
            }
            i = i + 1;
        }
        proof {
            assert(chunk@.take(chunk@.len() as int) =~= chunk@);
            lemma_output_count_grows(in_rate, out_rate, before.len(), whole.len());
            assert(added@ =~= taps_added(in_rate, out_rate, before, chunk@));
        }
        added
    }

    /// Consumes `chunk` and returns the output samples that it completes,
    /// each made by `blend` from its tap.
    ///
    /// `blend` is called once per tap, in output order, with the left and
    /// right sample, the offset and the output rate, and is expected to
    /// return `left + (right - left) * offset / out_rate`.
    pub fn push<F: Fn(T, T, u32, u32) -> T>(&mut self, chunk: &[T], blend: F) -> (produced: Vec<T>)
        requires
            old(self).wf(),
            forall|left: T, right: T, offset: u32, rate: u32|
                offset < rate ==> #[trigger] call_requires(blend, (left, right, offset, rate)),
        ensures
            final(self).wf(),
            final(self).in_rate() == old(self).in_rate(),
            final(self).out_rate() == old(self).out_rate(),
            final(self).consumed() == old(self).consumed() + chunk@,
            blended_by(
                blend,
                old(self).out_rate() as u32,
                taps_added(
                    old(self).in_rate(),
                    old(self).out_rate(),
                    old(self).consumed(),
                    chunk@,
                ),
                produced@,
            ),
    {
        let ghost in_rate = self.in_rate as nat;
        let ghost out_rate = self.out_rate as nat;
        let ghost whole = self.consumed@ + chunk@;
        let ghost first = output_count(in_rate, out_rate, self.consumed@.len());
        let rate = self.out_rate;
        let added = self.push_taps(chunk);
        proof {
            lemma_output_count_grows(in_rate, out_rate, old(self).consumed@.len(), whole.len());
            assert forall|k: int| 0 <= k < added@.len() implies (#[trigger] added@[k]).offset
                < rate by {
                lemma_tap_in_range(in_rate, out_rate, whole.len(), first + k);
            }
        }
        let mut produced: Vec<T> = Vec::new();
        let mut k: usize = 0;
        while k < added.len()
            invariant
                k <= added@.len(),
                produced@.len() == k,
                forall|m: int| 0 <= m < added@.len() ==> (#[trigger] added@[m]).offset < rate,
                forall|left: T, right: T, offset: u32, rate: u32|
                    offset < rate ==> #[trigger] call_requires(blend, (left, right, offset, rate)),
                forall|m: int|
                    0 <= m < k ==> call_ensures(
                        blend,
                        (added@[m].left, added@[m].right, added@[m].offset, rate),
                        #[trigger] produced@[m],
                    ),
            decreases added@.len() - k,
        {
            let tap = added[k];
            let sample = blend(tap.left, tap.right, tap.offset, rate);
            produced.push(sample);
            k = k + 1;
        }
        produced
    }
}

/// Converter that hands its output on in whole frames.
///
/// Input chunks of any length go in; frames of exactly `frame_len` output
/// samples come out as they fill up. Output that does not fill a frame yet
/// waits inside for the next chunk. Where the two rates are the same the
/// samples pass as they are and are only framed.
pub struct FrameResampler<T> {
    resampler: Option<Resampler<T>>,
    in_rate: u32,
    out_rate: u32,
    frame_len: usize,
    pending: Vec<T>,
    consumed: Ghost<Seq<T>>,
}

impl<T: Copy> FrameResampler<T> {
    /// Input rate in Hz.
    pub closed spec fn in_rate(&self) -> nat {
        self.in_rate as nat
    }

    /// Output rate in Hz.
    pub closed spec fn out_rate(&self) -> nat {
        self.out_rate as nat
    }

    /// Samples in a frame.
    pub closed spec fn frame_len(&self) -> nat {
        self.frame_len as nat
    }

    /// Every input sample consumed so far, oldest first.
    pub closed spec fn consumed(&self) -> Seq<T> {
        self.consumed@
    }

    /// The output samples that wait for their frame to fill up.
    pub closed spec fn pending(&self) -> Seq<T> {
        self.pending@
    }

    /// Whether the samples are converted, or only framed.
    pub open spec fn resamples(&self) -> bool {
        self.in_rate() != self.out_rate()
    }

    /// The parts fit together, and less than a frame is pending.
    pub closed spec fn wf(&self) -> bool {
        &&& self.in_rate > 0
        &&& self.out_rate > 0
        &&& self.frame_len > 0
        &&& self.pending@.len() < self.frame_len
        &&& match self.resampler {
            Some(r) => {
                &&& r.wf()
                &&& r.in_rate() == self.in_rate
                &&& r.out_rate() == self.out_rate
                &&& r.consumed() == self.consumed@
                &&& self.in_rate != self.out_rate
            },
            None => self.in_rate == self.out_rate,
        }
    }

    /// `produced` is what consuming `chunk` may add to the output: the
    /// samples blended from the taps that the chunk completes, or the
    /// chunk itself where nothing is converted.
    pub open spec fn produces<F: Fn(T, T, u32, u32) -> T>(
        &self,
        blend: F,
        chunk: Seq<T>,
        produced: Seq<T>,
    ) -> bool {
        if self.resamples() {
            blended_by(
                blend,
                self.out_rate() as u32,
                taps_added(self.in_rate(), self.out_rate(), self.consumed(), chunk),
                produced,
            )
        } else {
            produced == chunk
        }
    }

    /// A converter that has consumed nothing, or `None` if a rate or the
    /// frame length is zero.
    pub fn new(in_rate: u32, out_rate: u32, frame_len: usize) -> (made: Option<Self>)
        ensures
            made is Some <==> in_rate > 0 && out_rate > 0 && frame_len > 0,
            made matches Some(r) ==> {
                &&& r.wf()
                &&& r.in_rate() == in_rate
                &&& r.out_rate() == out_rate
                &&& r.frame_len() == frame_len
                &&& r.consumed() == Seq::<T>::empty()
                &&& r.pending() == Seq::<T>::empty()
            },
    {
        if in_rate == 0 || out_rate == 0 || frame_len == 0 {
            return None;
        }
        let resampler = if in_rate == out_rate {
            None
        } else {
            Resampler::new(in_rate, out_rate)
        };
        Some(
            FrameResampler {
                resampler,
                in_rate,
                out_rate,
                frame_len,
                pending: Vec::new(),
                consumed: Ghost(Seq::empty()),
            },
        )
    }

    /// Number of output samples that wait for their frame to fill up.
    pub fn pending_len(&self) -> (n: usize)
        ensures
            n == self.pending().len(),
    {
        self.pending.len()
    }

    /// Consumes `chunk` and returns the frames that it fills.
    ///
    /// What the chunk adds to the output goes behind what was pending; the
    /// whole frames of that are returned and the rest is pending now. An
    /// empty chunk changes nothing and returns nothing.
    pub fn push<F: Fn(T, T, u32, u32) -> T>(&mut self, chunk: &[T], blend: F) -> (frames: Vec<Vec<T>>)
        requires
            old(self).wf(),
            forall|left: T, right: T, offset: u32, rate: u32|
                offset < rate ==> #[trigger] call_requires(blend, (left, right, offset, rate)),
        ensures
            final(self).wf(),
            final(self).in_rate() == old(self).in_rate(),
            final(self).out_rate() == old(self).out_rate(),
            final(self).frame_len() == old(self).frame_len(),
            final(self).consumed() == old(self).consumed() + chunk@,
            exists|produced: Seq<T>|
                {
                    &&& #[trigger] old(self).produces(blend, chunk@, produced)
                    &&& frames_view(frames@) == whole_frames(
                        old(self).pending() + produced,
                        old(self).frame_len(),
                    )
                    &&& final(self).pending() == partial_frame(
                        old(self).pending() + produced,
                        old(self).frame_len(),
                    )
                },
    {
        let ghost held = self.pending@;
        let ghost produced: Seq<T>;
        match &mut self.resampler {
            Some(resampler) => {
                let mut more = resampler.push(chunk, blend);
                proof {
                    produced = more@;
                }
                self.pending.append(&mut more);
            },
            None => {
                let mut more = copy_frame(chunk);
                proof {
                    produced = more@;
                }
                self.pending.append(&mut more);
            },
        }
        self.consumed = Ghost(self.consumed@ + chunk@);
        let frames = take_whole_frames(&mut self.pending, self.frame_len);
        proof {
            lemma_whole_frames_lose_nothing(held + produced, self.frame_len as nat);
            assert(old(self).produces(blend, chunk@, produced));
        }
        frames
    }

    /// Ends the stream: what is pending is filled up with `silence` to one
    /// last frame and handed out. With nothing pending there is no last
    /// frame.
    pub fn finish(&mut self, silence: T) -> (last: Option<Vec<T>>)
        requires
            old(self).wf(),
        ensures
            final(self).wf(),
            final(self).in_rate() == old(self).in_rate(),
            final(self).out_rate() == old(self).out_rate(),
            final(self).frame_len() == old(self).frame_len(),
            final(self).consumed() == old(self).consumed(),
            final(self).pending() == Seq::<T>::empty(),
            old(self).pending().len() == 0 <==> last is None,
            last matches Some(frame) ==> frame@ == old(self).pending() + Seq::new(
                (old(self).frame_len() - old(self).pending().len()) as nat,
                |i: int| silence,
            ),
    {
        if self.pending.len() == 0 {
            return None;
        }
        let ghost held = self.pending@;
        let mut frame: Vec<T> = Vec::new();
        core::mem::swap(&mut frame, &mut self.pending);
        let mut filled: usize = frame.len();
        while filled < self.frame_len
            invariant
                held.len() <= filled <= self.frame_len,
                frame@.len() == filled,
                frame@ == held + Seq::new((filled - held.len()) as nat, |i: int| silence),
            decreases self.frame_len - filled,
        {
            frame.push(silence);
            filled = filled + 1;
        }
        Some(frame)
    }
}

/// How many samples have left a frame converter in frames when
/// `consumed` input samples went in: the whole frames of its output.
pub open spec fn framed_count(in_rate: nat, out_rate: nat, frame_len: nat, consumed: nat) -> nat {
    (output_count(in_rate, out_rate, consumed) / frame_len) * frame_len
}

/// The rate is kept up to a frame: `seconds` whole seconds of input have
/// given, in frames, `seconds` seconds of output less at most one frame.
pub proof fn lemma_rate_is_kept_in_frames(in_rate: nat, out_rate: nat, frame_len: nat, seconds: nat)
    requires
        0 < out_rate <= in_rate,
        frame_len > 0,
        seconds > 0,
    ensures
        seconds * out_rate - frame_len <= framed_count(
            in_rate,
            out_rate,
            frame_len,
            seconds * in_rate,
        ) <= seconds * out_rate,
{
    lemma_rate_is_kept(in_rate, out_rate, seconds);
    let count = output_count(in_rate, out_rate, seconds * in_rate) as int;
    let unit = frame_len as int;
    lemma_fundamental_div_mod(count, unit);
    assert((count / unit) * unit == unit * (count / unit)) by (nonlinear_arith);
}

} // verus!
