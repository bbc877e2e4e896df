//! Length policy for a finished recording.

use vstd::prelude::*;

verus! {

/// Sample rate, in Hz, of every segment handed to the transcription consumer.
pub const TARGET_SAMPLE_RATE: usize = 16000;

/// Length, in samples, that a short segment is padded to: one second and a quarter.
pub const PADDED_SEGMENT_SAMPLES: usize = 20000;

/// What a segment becomes before it is handed on: a segment of less than
/// one second, the empty one included, is followed by `silence` up to one
/// second and a quarter; any other segment is left as it is.
pub open spec fn padded_segment<T>(samples: Seq<T>, silence: T) -> Seq<T> {
    if samples.len() < TARGET_SAMPLE_RATE {
        samples + Seq::new((PADDED_SEGMENT_SAMPLES - samples.len()) as nat, |i: int| silence)
    } else {
        samples
    }
}

/// Pads a segment that is too short for the transcription model.
pub fn pad_short_segment<T: Copy>(samples: Vec<T>, silence: T) -> (padded: Vec<T>)
    ensures
        padded@ == padded_segment(samples@, silence),
{
    let ghost before = samples@;
    let mut padded = samples;
    let len = padded.len();
    if len < TARGET_SAMPLE_RATE {
        let mut filled: usize = len;
        while filled < PADDED_SEGMENT_SAMPLES
            invariant
                len <= filled <= PADDED_SEGMENT_SAMPLES,
                padded@.len() == filled,
                padded@ == before + Seq::new((filled - len) as nat, |i: int| silence),
                before.len() == len,
            decreases PADDED_SEGMENT_SAMPLES - filled,
        {
            padded.push(silence);
            filled = filled + 1;
        }
    }
    padded
}

} // verus!
