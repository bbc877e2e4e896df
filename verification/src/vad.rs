//! Hysteresis around a per-frame voice detector.
//!
//! A raw detector answers frame by frame and flickers. The smoothed detector
//! switches to speech only after `attack` speech frames in a row and back
//! only after `release` non-speech frames in a row. While it waits for
//! speech it holds back the most recent frames, so that the frames that
//! led up to the switch, and up to `pre_roll` frames before them, are
//! released together with it and the start of an utterance is not clipped.
//!
//! The raw verdict for each frame is an input here: whoever owns the
//! detector model asks it and passes the answer on.

use crate::frames::copy_frame;
use crate::frames::frames_view;
use crate::frames::join_frames;
use vstd::prelude::*;

verus! {

/// The three frame counts that shape the hysteresis.
pub struct VadParams {
    /// Speech frames in a row that switch to speech.
    pub attack: nat,
    /// Non-speech frames in a row that switch back.
    pub release: nat,
    /// Frames held back from before the first speech frame.
    pub pre_roll: nat,
}

impl VadParams {
    /// Both switches need at least one frame. The pre-roll is free: it is
    /// meant to be no longer than the attack, but a longer one is held
    /// back just the same.
    pub open spec fn valid(self) -> bool {
        &&& self.attack >= 1
        &&& self.release >= 1
    }
}

/// What the smoothed detector remembers between frames.
pub struct VadState<T> {
    /// Whether the smoothed verdict is speech.
    pub in_speech: bool,
    /// Speech frames in a row seen while waiting for speech.
    pub onset: nat,
    /// Non-speech frames in a row seen while in speech.
    pub quiet: nat,
    /// Frames held back while waiting for speech, oldest first.
    pub held: Seq<Seq<T>>,
}

/// The last `n` items of `s`, or all of `s` if it has no more than `n`.
pub open spec fn keep_last<A>(s: Seq<A>, n: nat) -> Seq<A> {
    if s.len() <= n {
        s
    } else {
        s.skip(s.len() - n)
    }
}

impl<T> VadState<T> {
    /// The state before any frame: waiting for speech, nothing held.
    pub open spec fn initial() -> Self {
        VadState { in_speech: false, onset: 0, quiet: 0, held: Seq::empty() }
    }

    /// Counters are below their thresholds, the frames of the current run
    /// of speech are held together with at most `pre_roll` frames before
    /// them, and nothing is held while in speech.
    pub open spec fn wf(self, params: VadParams) -> bool {
        &&& params.valid()
        &&& if self.in_speech {
            self.onset == 0 && self.quiet < params.release && self.held.len() == 0
        } else {
            &&& self.quiet == 0
            &&& self.onset < params.attack
            &&& self.onset <= self.held.len() <= params.pre_roll + self.onset
        }
    }

    /// The state after one more frame, and the frames released by it.
    pub open spec fn step(self, params: VadParams, frame: Seq<T>, voiced: bool) -> (
        Self,
        Seq<Seq<T>>,
    ) {
        if self.in_speech {
            if voiced {
                (VadState { quiet: 0, ..self }, seq![frame])
            } else if self.quiet + 1 >= params.release {
                (VadState::initial(), seq![frame])
            } else {
                (VadState { quiet: self.quiet + 1, ..self }, seq![frame])
            }
        } else if voiced {
            if self.onset + 1 >= params.attack {
                (
                    VadState { in_speech: true, onset: 0, quiet: 0, held: Seq::empty() },
                    self.held.push(frame),
                )
            } else {
                (
                    VadState { onset: self.onset + 1, held: self.held.push(frame), ..self },
                    Seq::empty(),
                )
            }
        } else {
            (
                VadState { onset: 0, held: keep_last(self.held.push(frame), params.pre_roll), ..self },
                Seq::empty(),
            )
        }
    }

    /// The state after the frames `frames`, each with its raw verdict in
    /// `voiced`, and all frames released on the way, in order.
    pub open spec fn run(self, params: VadParams, frames: Seq<Seq<T>>, voiced: Seq<bool>) -> (
        Self,
        Seq<Seq<T>>,
    )
        decreases frames.len(),
    {
        if frames.len() == 0 {
            (self, Seq::empty())
        } else {
            let (before, released) = self.run(params, frames.drop_last(), voiced.drop_last());
            let (after, more) = before.step(params, frames.last(), voiced.last());
            (after, released + more)
        }
    }
}

/// A step keeps a well-formed state well-formed.
pub proof fn lemma_step_keeps_wf<T>(state: VadState<T>, params: VadParams, frame: Seq<T>, voiced: bool)
    requires
        state.wf(params),
    ensures
        state.step(params, frame, voiced).0.wf(params),
{
}

/// One speech frame between non-speech frames does not switch to speech
/// when the attack is longer than one frame, and releases nothing.
pub proof fn lemma_isolated_frame_is_suppressed<T>(
    state: VadState<T>,
    params: VadParams,
    speech: Seq<T>,
    after: Seq<T>,
)
    requires
        state.wf(params),
        !state.in_speech,
        state.onset == 0,
        params.attack > 1,
    ensures
        ({
            let (first, released_first) = state.step(params, speech, true);
            let (second, released_second) = first.step(params, after, false);
            &&& !first.in_speech
            &&& !second.in_speech
            &&& released_first == Seq::<Seq<T>>::empty()
            &&& released_second == Seq::<Seq<T>>::empty()
            &&& second.onset == 0
        }),
{
}

/// `attack` speech frames in a row switch to speech, and what is released
/// is the pre-roll held before them followed by those frames. Before the
/// last of them nothing is released.
pub proof fn lemma_attack_switches_to_speech<T>(
    state: VadState<T>,
    params: VadParams,
    frames: Seq<Seq<T>>,
)
    requires
        state.wf(params),
        !state.in_speech,
        state.onset == 0,
        frames.len() == params.attack,
    ensures
        ({
            let voiced = Seq::new(frames.len(), |i: int| true);
            let (end, released) = state.run(params, frames, voiced);
            &&& end.in_speech
            &&& released == state.held + frames
            &&& state.held.len() <= params.pre_roll
        }),
        ({
            let most = frames.drop_last();
            let voiced = Seq::new(most.len(), |i: int| true);
            let (end, released) = state.run(params, most, voiced);
            &&& !end.in_speech
            &&& released == Seq::<Seq<T>>::empty()
        }),
{
    let most = frames.drop_last();
    let voiced_most = Seq::new(most.len(), |i: int| true);
    let voiced = Seq::new(frames.len(), |i: int| true);
    lemma_onset_holds_frames(state, params, most);
    assert(voiced.drop_last() =~= voiced_most);
    let (before, released) = state.run(params, most, voiced_most);
    assert(before.held.push(frames.last()) =~= state.held + frames);
    assert(released + (state.held + frames) =~= state.held + frames);
}

/// Fewer than `attack` speech frames in a row are all held back behind the
/// pre-roll, and the detector keeps waiting.
pub proof fn lemma_onset_holds_frames<T>(state: VadState<T>, params: VadParams, frames: Seq<Seq<T>>)
    requires
        state.wf(params),
        !state.in_speech,
        state.onset == 0,
        frames.len() < params.attack,
    ensures
        ({
            let voiced = Seq::new(frames.len(), |i: int| true);
            let (end, released) = state.run(params, frames, voiced);
            &&& !end.in_speech
            &&& end.onset == frames.len()
            &&& end.quiet == 0
            &&& end.held == state.held + frames
            &&& released == Seq::<Seq<T>>::empty()
        }),
    decreases frames.len(),
{
    let voiced = Seq::new(frames.len(), |i: int| true);
    if frames.len() == 0 {
        assert(state.held + frames =~= state.held);
    } else {
        let most = frames.drop_last();
        let voiced_most = Seq::new(most.len(), |i: int| true);
        lemma_onset_holds_frames(state, params, most);
        assert(voiced.drop_last() =~= voiced_most);
        let (before, released) = state.run(params, most, voiced_most);
        assert(before.held.push(frames.last()) =~= state.held + frames);
    }
}

/// While the detector waits, non-speech frames push older frames out of
/// the pre-roll: after a run of them, what is held is the last `pre_roll`
/// frames of what was held before followed by the run, and so, once the
/// run is at least `pre_roll` long, the last `pre_roll` frames of the run.
pub proof fn lemma_pre_roll_holds_latest_frames<T>(
    state: VadState<T>,
    params: VadParams,
    frames: Seq<Seq<T>>,
)
    requires
        state.wf(params),
        !state.in_speech,
    ensures
        ({
            let voiced = Seq::new(frames.len(), |i: int| false);
            let (end, released) = state.run(params, frames, voiced);
            &&& released == Seq::<Seq<T>>::empty()
            &&& frames.len() == 0 ==> end == state
            &&& frames.len() > 0 ==> {
                &&& !end.in_speech
                &&& end.onset == 0
                &&& end.quiet == 0
                &&& end.held == keep_last(state.held + frames, params.pre_roll)
            }
            &&& frames.len() > 0 && frames.len() >= params.pre_roll ==> end.held == keep_last(
                frames,
                params.pre_roll,
            )
        }),
    decreases frames.len(),
{
    let voiced = Seq::new(frames.len(), |i: int| false);
    if frames.len() > 0 {
        let most = frames.drop_last();
        let voiced_most = Seq::new(most.len(), |i: int| false);
        assert(voiced.drop_last() =~= voiced_most);
        lemma_pre_roll_holds_latest_frames(state, params, most);
        let (before, released_before) = state.run(params, most, voiced_most);
        let (end, more) = before.step(params, frames.last(), false);
        assert(state.run(params, frames, voiced) == (end, released_before + more));
        assert(released_before + more =~= Seq::<Seq<T>>::empty());
        let all = state.held + frames;
        let earlier = state.held + most;
        assert(earlier.push(frames.last()) =~= all);
        if most.len() == 0 {
            assert(earlier =~= state.held);
            assert(before.held.push(frames.last()) =~= all);
        } else {
            assert(keep_last(keep_last(earlier, params.pre_roll).push(frames.last()), params.pre_roll)
                =~= keep_last(all, params.pre_roll));
        }
        assert(end.held == keep_last(all, params.pre_roll));
        if frames.len() >= params.pre_roll {
            assert(keep_last(all, params.pre_roll) =~= keep_last(frames, params.pre_roll));
        }
    }
}

/// `release` non-speech frames in a row end the speech, and each of them
/// is still passed through.
pub proof fn lemma_release_switches_back<T>(
    state: VadState<T>,
    params: VadParams,
    frames: Seq<Seq<T>>,
)
    requires
        state.wf(params),
        state.in_speech,
        state.quiet == 0,
        frames.len() == params.release,
    ensures
        ({
            let voiced = Seq::new(frames.len(), |i: int| false);
            let (end, released) = state.run(params, frames, voiced);
            &&& end == VadState::<T>::initial()
            &&& released == frames
        }),
{
    let most = frames.drop_last();
    let voiced = Seq::new(frames.len(), |i: int| false);
    let voiced_most = Seq::new(most.len(), |i: int| false);
    lemma_release_passes_frames(state, params, most);
    assert(voiced.drop_last() =~= voiced_most);
    assert(most.push(frames.last()) =~= frames);
}

/// Fewer than `release` non-speech frames in a row leave the detector in
/// speech, and each of them is passed through.
pub proof fn lemma_release_passes_frames<T>(
    state: VadState<T>,
    params: VadParams,
    frames: Seq<Seq<T>>,
)
    requires
        state.wf(params),
        state.in_speech,
        state.quiet == 0,
        frames.len() < params.release,
    ensures
        ({
            let voiced = Seq::new(frames.len(), |i: int| false);
            let (end, released) = state.run(params, frames, voiced);
            &&& end.in_speech
            &&& end.quiet == frames.len()
            &&& end.onset == 0
            &&& end.held.len() == 0
            &&& released == frames
        }),
    decreases frames.len(),
{
    let voiced = Seq::new(frames.len(), |i: int| false);
    if frames.len() > 0 {
        let most = frames.drop_last();
        let voiced_most = Seq::new(most.len(), |i: int| false);
        lemma_release_passes_frames(state, params, most);
        assert(voiced.drop_last() =~= voiced_most);
        assert(most.push(frames.last()) =~= frames);
    } else {
        assert(frames =~= Seq::<Seq<T>>::empty());
    }
}

/// What the smoothed detector makes of one frame.
pub enum VadFrame<T> {
    /// Nothing to pass on: the frame is held back or dropped.
    Noise,
    /// Samples to pass on: the frame itself, or on a switch to speech the
    /// held frames followed by it.
    Speech(Vec<T>),
}

impl<T> VadFrame<T> {
    /// The samples passed on, none for `Noise`.
    pub open spec fn samples(self) -> Seq<T> {
        match self {
            VadFrame::Noise => Seq::empty(),
            VadFrame::Speech(samples) => samples@,
        }
    }
}

/// Voice detector with attack and release counting and a pre-roll buffer.
pub struct SmoothedVad<T> {
    prefill_frames: usize,
    hangover_frames: usize,
    onset_frames: usize,
    in_speech: bool,
    onset_counter: usize,
    hangover_counter: usize,
    frame_buffer: Vec<Vec<T>>,
}

impl<T> View for SmoothedVad<T> {
    type V = VadState<T>;

    closed spec fn view(&self) -> VadState<T> {
        VadState {
            in_speech: self.in_speech,
            onset: self.onset_counter as nat,
            quiet: self.hangover_counter as nat,
            held: frames_view(self.frame_buffer@),
        }
    }
}

impl<T: Copy> SmoothedVad<T> {
    /// The frame counts this detector was made with.
    pub closed spec fn params(&self) -> VadParams {
        VadParams {
            attack: self.onset_frames as nat,
            release: self.hangover_frames as nat,
            pre_roll: self.prefill_frames as nat,
        }
    }

    /// The state is well-formed for the parameters.
    pub open spec fn wf(&self) -> bool {
        self@.wf(self.params())
    }

    /// A detector waiting for speech, or `None` when a threshold is zero.
    pub fn new(prefill_frames: usize, hangover_frames: usize, onset_frames: usize) -> (vad: Option<
        Self,
    >)
        ensures
            vad is Some <==> onset_frames >= 1 && hangover_frames >= 1,
            vad matches Some(v) ==> {
                &&& v.wf()
                &&& v@ == VadState::<T>::initial()
                &&& v.params() == (VadParams {
                    attack: onset_frames as nat,
                    release: hangover_frames as nat,
                    pre_roll: prefill_frames as nat,
                })
            },
    {
        if onset_frames >= 1 && hangover_frames >= 1 {
            let vad = SmoothedVad {
                prefill_frames,
                hangover_frames,
                onset_frames,
                in_speech: false,
                onset_counter: 0,
                hangover_counter: 0,
                frame_buffer: Vec::new(),
            };
            assert(vad@.held =~= Seq::<Seq<T>>::empty());
            Some(vad)
        } else {
            None
        }
    }

    /// Whether the smoothed verdict is speech.
    pub fn is_speech(&self) -> (speech: bool)
        ensures
            speech == self@.in_speech,
    {
        self.in_speech
    }

    /// Forgets everything and waits for speech again.
    pub fn reset(&mut self)
        requires
            old(self).wf(),
        ensures
            final(self).wf(),
            final(self).params() == old(self).params(),
            final(self)@ == VadState::<T>::initial(),
    {
        self.in_speech = false;
        self.onset_counter = 0;
        self.hangover_counter = 0;
        self.frame_buffer.clear();
        assert(self@.held =~= Seq::<Seq<T>>::empty());
    }

    /// Takes the next frame with the raw detector's verdict on it.
    ///
    /// The new state and the frames released are those of `VadState::step`;
    /// the released frames come back joined into one run of samples.
    pub fn push_frame(&mut self, frame: &[T], is_voice: bool) -> (out: VadFrame<T>)
        requires
            old(self).wf(),
        ensures
            final(self).wf(),
            final(self).params() == old(self).params(),
            final(self)@ == old(self)@.step(old(self).params(), frame@, is_voice).0,
            out.samples() == old(self)@.step(old(self).params(), frame@, is_voice).1.flatten(),
            out is Noise <==> old(self)@.step(old(self).params(), frame@, is_voice).1.len() == 0,
    {
        broadcast use Seq::lemma_flatten_push;

        let ghost before = self@;
        let ghost params = self.params();
        let ghost expected = before.step(params, frame@, is_voice);
        proof {
            lemma_step_keeps_wf(before, params, frame@, is_voice);
        }
        if self.in_speech {
            if is_voice {
                self.hangover_counter = 0;
            } else if self.hangover_counter + 1 >= self.hangover_frames {
                self.in_speech = false;
                self.hangover_counter = 0;
            } else {
                self.hangover_counter = self.hangover_counter + 1;
            }
            let samples = copy_frame(frame);
            proof {
                assert(self@.held =~= expected.0.held);
                assert(seq![frame@].flatten() =~= frame@) by {
                    assert(seq![frame@] =~= Seq::<Seq<T>>::empty().push(frame@));
                    assert(Seq::<Seq<T>>::empty().flatten() =~= Seq::<T>::empty());
                }
            }
            VadFrame::Speech(samples)
        } else if is_voice {
            self.frame_buffer.push(copy_frame(frame));
            assert(frames_view(self.frame_buffer@) =~= before.held.push(frame@));
            if self.onset_counter + 1 >= self.onset_frames {
                let samples = join_frames(&self.frame_buffer);
                self.in_speech = true;
                self.onset_counter = 0;
                self.hangover_counter = 0;
                self.frame_buffer.clear();
                assert(self@.held =~= Seq::<Seq<T>>::empty());
                VadFrame::Speech(samples)
            } else {
                self.onset_counter = self.onset_counter + 1;
                VadFrame::Noise
            }
        } else {
            self.frame_buffer.push(copy_frame(frame));
            assert(frames_view(self.frame_buffer@) =~= before.held.push(frame@));
            self.onset_counter = 0;
            if self.frame_buffer.len() > self.prefill_frames {
                let ghost full = self.frame_buffer@;
                let extra = self.frame_buffer.len() - self.prefill_frames;
                let kept = self.frame_buffer.split_off(extra);
                self.frame_buffer = kept;
                assert(frames_view(self.frame_buffer@) =~= keep_last(
                    frames_view(full),
                    self.prefill_frames as nat,
                ));
            }
            assert(Seq::<Seq<T>>::empty().flatten() =~= Seq::<T>::empty());
            VadFrame::Noise
        }
    }
}

} // verus!
