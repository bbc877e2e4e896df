//! The sample store of an on-demand recording.
//!
//! While a recording runs, every frame from the microphone passes the
//! smoothed voice detector, and what the detector releases is collected.
//! Stopping hands the collected samples over. Frames that arrive while
//! nothing records are dropped without touching the detector.

use crate::vad::SmoothedVad;
use crate::vad::VadFrame;
use crate::vad::VadState;
use vstd::prelude::*;

verus! {

/// Collects the speech of one recording at a time.
pub struct SessionRecorder<T> {
    vad: SmoothedVad<T>,
    recording: bool,
    samples: Vec<T>,
}

impl<T: Copy> SessionRecorder<T> {
    /// Whether a recording runs.
    pub closed spec fn recording(&self) -> bool {
        self.recording
    }

    /// The samples collected for the running recording.
    pub closed spec fn collected(&self) -> Seq<T> {
        self.samples@
    }

    /// The detector that gates the frames.
    pub closed spec fn detector(&self) -> SmoothedVad<T> {
        self.vad
    }

    /// The detector is well-formed.
    pub open spec fn wf(&self) -> bool {
        self.detector().wf()
    }

    /// A recorder around `vad` with nothing recording.
    pub fn new(vad: SmoothedVad<T>) -> (recorder: Self)
        requires
            vad.wf(),
        ensures
            recorder.wf(),
            recorder.detector() == vad,
            !recorder.recording(),
            recorder.collected() == Seq::<T>::empty(),
    {
        SessionRecorder { vad, recording: false, samples: Vec::new() }
    }

    /// Whether a recording runs.
    pub fn is_recording(&self) -> (recording: bool)
        ensures
            recording == self.recording(),
    {
        self.recording
    }

    /// Begins a recording: what was collected before is dropped and the
    /// detector starts afresh, so that nothing stale leaks in.
    pub fn start(&mut self)
        requires
            old(self).wf(),
        ensures
            final(self).wf(),
            final(self).recording(),
            final(self).collected() == Seq::<T>::empty(),
            final(self).detector().params() == old(self).detector().params(),
            final(self).detector()@ == VadState::<T>::initial(),
    {
        self.samples.clear();
        self.vad.reset();
        self.recording = true;
    }

    /// Takes a frame with the raw detector's verdict on it.
    ///
    /// While recording, the frame passes the smoothed detector and what is
    /// released is appended to the collected samples. Otherwise nothing
    /// changes.
    pub fn push_frame(&mut self, frame: &[T], is_voice: bool)
        requires
            old(self).wf(),
        ensures
            final(self).wf(),
            final(self).recording() == old(self).recording(),
            final(self).detector().params() == old(self).detector().params(),
            old(self).recording() ==> {
                let step = old(self).detector()@.step(old(self).detector().params(), frame@, is_voice);
                &&& final(self).detector()@ == step.0
                &&& final(self).collected() == old(self).collected() + step.1.flatten()
            },
            !old(self).recording() ==> {
                &&& final(self).detector()@ == old(self).detector()@
                &&& final(self).collected() == old(self).collected()
            },
    {
        if !self.recording {
            return;
        }
        let ghost before = self.samples@;
        match self.vad.push_frame(frame, is_voice) {
            VadFrame::Noise => {
                assert(before + Seq::<T>::empty() =~= before);
            },
            VadFrame::Speech(mut released) => {
                self.samples.append(&mut released);
            },
        }
    }

    /// Ends the recording and hands over what was collected. With nothing
    /// recording, nothing is handed over.
    pub fn stop(&mut self) -> (samples: Vec<T>)
        requires
            old(self).wf(),
        ensures
            final(self).wf(),
            !final(self).recording(),
            final(self).collected() == Seq::<T>::empty(),
            final(self).detector() == old(self).detector(),
            samples@ == if old(self).recording() {
                old(self).collected()
            } else {
                Seq::<T>::empty()
            },
    {
        let mut samples: Vec<T> = Vec::new();
        if self.recording {
            core::mem::swap(&mut samples, &mut self.samples);
        } else {
            self.samples.clear();
        }
        self.recording = false;
        samples
    }
}

} // verus!
