use capture_core::frames::copy_frame;
use capture_core::frames::join_frames;
use capture_core::frames::take_whole_frames;
use capture_core::resampler::FrameResampler;
use capture_core::resampler::Resampler;
use capture_core::resampler::Tap;

fn blend(left: f32, right: f32, offset: u32, rate: u32) -> f32 {
    left + (right - left) * (offset as f32 / rate as f32)
}

fn ramp(len: usize) -> Vec<f32> {
    (0..len).map(|i| (i as f32) * 0.25 - 3.0).collect()
}

fn push_in_chunks(in_rate: u32, out_rate: u32, input: &[f32], sizes: &[usize]) -> Vec<f32> {
    let mut resampler: Resampler<f32> = Resampler::new(in_rate, out_rate).unwrap();
    let mut out = Vec::new();
    let mut at = 0;
    let mut turn = 0;
    while at < input.len() {
        let size = sizes[turn % sizes.len()].min(input.len() - at);
        out.extend(resampler.push(&input[at..at + size], blend));
        at += size;
        turn += 1;
    }
    out
}

#[test]
fn resampler_rejects_zero_rates() {
    assert!(Resampler::<f32>::new(0, 16000).is_none());
    assert!(Resampler::<f32>::new(48000, 0).is_none());
    assert!(Resampler::<f32>::new(0, 0).is_none());
    assert!(Resampler::<f32>::new(48000, 16000).is_some());
}

#[test]
fn resampler_empty_chunk_is_a_no_op() {
    let mut resampler: Resampler<f32> = Resampler::new(48000, 16000).unwrap();
    assert!(resampler.push(&[], blend).is_empty());
    let first = resampler.push(&[1.0, 2.0, 3.0, 4.0], blend);
    assert!(resampler.push(&[], blend).is_empty());
    assert_eq!(first, vec![1.0]);
}

#[test]
fn resampler_output_is_independent_of_chunking() {
    let input = ramp(5000);
    let whole = push_in_chunks(48000, 16000, &input, &[5000]);
    assert_eq!(push_in_chunks(48000, 16000, &input, &[1]), whole);
    assert_eq!(push_in_chunks(48000, 16000, &input, &[7, 1, 100, 3]), whole);
    assert_eq!(push_in_chunks(48000, 16000, &input, &[4999, 1]), whole);
    let whole = push_in_chunks(44100, 16000, &input, &[5000]);
    assert_eq!(push_in_chunks(44100, 16000, &input, &[1]), whole);
    assert_eq!(push_in_chunks(44100, 16000, &input, &[13, 2, 911]), whole);
    let whole = push_in_chunks(8000, 16000, &input, &[5000]);
    assert_eq!(push_in_chunks(8000, 16000, &input, &[3, 50]), whole);
}

#[test]
fn resampler_keeps_the_rate_from_48k_to_16k() {
    for seconds in 1..4usize {
        let input = vec![0.5f32; 48000 * seconds];
        let out = push_in_chunks(48000, 16000, &input, &[4096]);
        assert_eq!(out.len(), 16000 * seconds);
    }
}

#[test]
fn resampler_counts_outputs_exactly() {
    // One output for every output time strictly before the last input sample.
    assert_eq!(push_in_chunks(48000, 16000, &ramp(1), &[1]).len(), 0);
    assert_eq!(push_in_chunks(48000, 16000, &ramp(2), &[1]).len(), 1);
    assert_eq!(push_in_chunks(48000, 16000, &ramp(4), &[1]).len(), 1);
    assert_eq!(push_in_chunks(48000, 16000, &ramp(5), &[1]).len(), 2);
    assert_eq!(push_in_chunks(1, 2, &ramp(10), &[3]).len(), 18);
    assert_eq!(push_in_chunks(16000, 16000, &ramp(10), &[3]).len(), 9);
    assert_eq!(push_in_chunks(44100, 16000, &ramp(44100), &[512]).len(), 16000);
}

#[test]
fn resampler_picks_every_third_sample_when_dividing_by_three() {
    let input = ramp(31);
    let out = push_in_chunks(48000, 16000, &input, &[5]);
    assert_eq!(out.len(), 10);
    for (j, sample) in out.iter().enumerate() {
        assert_eq!(*sample, input[3 * j]);
    }
}

#[test]
fn resampler_interpolates_between_neighbours() {
    // 3 Hz to 2 Hz: output times 0, 1.5, 3, 4.5 in input periods.
    let input = [0.0f32, 10.0, 20.0, 30.0, 40.0, 50.0];
    let out = push_in_chunks(3, 2, &input, &[2]);
    assert_eq!(out, vec![0.0, 15.0, 30.0, 45.0]);
    // 1 Hz to 2 Hz: every half period.
    let out = push_in_chunks(1, 2, &[1.0, 2.0, 4.0], &[1]);
    assert_eq!(out, vec![1.0, 1.5, 2.0, 3.0]);
}

#[test]
fn resampler_taps_name_neighbours_and_offsets() {
    let mut resampler: Resampler<f32> = Resampler::new(3, 2).unwrap();
    let mut taps: Vec<Tap<f32>> = Vec::new();
    taps.extend(resampler.push_taps(&[0.0, 10.0]));
    taps.extend(resampler.push_taps(&[20.0, 30.0]));
    let seen: Vec<(f32, f32, u32)> = taps.iter().map(|t| (t.left, t.right, t.offset)).collect();
    assert_eq!(seen, vec![(0.0, 10.0, 0), (10.0, 20.0, 1)]);
}

#[test]
fn whole_frames_are_cut_and_the_rest_stays() {
    let samples = ramp(1000);
    let mut pending = samples.clone();
    let frames = take_whole_frames(&mut pending, 480);
    let lens: Vec<usize> = frames.iter().map(|f| f.len()).collect();
    assert_eq!(lens, vec![480, 480]);
    assert_eq!(pending, samples[960..].to_vec());
    assert_eq!(join_frames(&frames), samples[..960].to_vec());
    assert!(take_whole_frames(&mut pending, 480).is_empty());
    assert_eq!(pending.len(), 40);
    let mut pending = samples[..3].to_vec();
    assert_eq!(take_whole_frames(&mut pending, 1).len(), 3);
    assert!(pending.is_empty());
    let mut nothing: Vec<f32> = Vec::new();
    assert!(take_whole_frames(&mut nothing, 480).is_empty());
    assert!(join_frames(&Vec::<Vec<f32>>::new()).is_empty());
    assert_eq!(copy_frame(&samples[..5]), samples[..5].to_vec());
}

fn frames_in_chunks(in_rate: u32, out_rate: u32, input: &[f32], sizes: &[usize]) -> (Vec<f32>, usize) {
    let mut resampler: FrameResampler<f32> = FrameResampler::new(in_rate, out_rate, 480).unwrap();
    let mut out = Vec::new();
    let mut at = 0;
    let mut turn = 0;
    while at < input.len() {
        let size = sizes[turn % sizes.len()].min(input.len() - at);
        for frame in resampler.push(&input[at..at + size], blend) {
            assert_eq!(frame.len(), 480);
            out.extend(frame);
        }
        assert!(resampler.pending_len() < 480);
        at += size;
        turn += 1;
    }
    (out, resampler.pending_len())
}

#[test]
fn frame_resampler_rejects_zero_parameters() {
    assert!(FrameResampler::<f32>::new(0, 16000, 480).is_none());
    assert!(FrameResampler::<f32>::new(48000, 0, 480).is_none());
    assert!(FrameResampler::<f32>::new(48000, 16000, 0).is_none());
    assert!(FrameResampler::<f32>::new(48000, 16000, 480).is_some());
    assert!(FrameResampler::<f32>::new(16000, 16000, 1).is_some());
}

#[test]
fn frame_resampler_hands_out_whole_frames_only() {
    let input = ramp(5000);
    let whole = push_in_chunks(48000, 16000, &input, &[5000]);
    assert_eq!(whole.len(), 1667);
    let (framed, pending) = frames_in_chunks(48000, 16000, &input, &[5000]);
    assert_eq!(framed, whole[..1440].to_vec());
    assert_eq!(pending, 227);
    assert_eq!(frames_in_chunks(48000, 16000, &input, &[1]), (framed.clone(), pending));
    assert_eq!(frames_in_chunks(48000, 16000, &input, &[7, 1, 1000, 3]), (framed, pending));
}

#[test]
fn frame_resampler_is_within_one_frame_of_the_rate() {
    for seconds in 1..4usize {
        let input = vec![0.5f32; 48000 * seconds];
        let (framed, pending) = frames_in_chunks(48000, 16000, &input, &[4096]);
        assert_eq!(framed.len(), (16000 * seconds / 480) * 480);
        assert_eq!(framed.len() + pending, 16000 * seconds);
        assert!(16000 * seconds - framed.len() < 480);
    }
}

#[test]
fn frame_resampler_only_frames_at_equal_rates() {
    let input = ramp(1000);
    let (framed, pending) = frames_in_chunks(16000, 16000, &input, &[333]);
    assert_eq!(framed, input[..960].to_vec());
    assert_eq!(pending, 40);
}

#[test]
fn frame_resampler_finish_pads_the_last_frame() {
    let mut resampler: FrameResampler<f32> = FrameResampler::new(16000, 16000, 4).unwrap();
    assert!(resampler.finish(0.0).is_none());
    let frames = resampler.push(&[1.0, 2.0, 3.0, 4.0, 5.0, 6.0], blend);
    assert_eq!(frames, vec![vec![1.0, 2.0, 3.0, 4.0]]);
    assert_eq!(resampler.pending_len(), 2);
    assert_eq!(resampler.finish(0.0), Some(vec![5.0, 6.0, 0.0, 0.0]));
    assert_eq!(resampler.pending_len(), 0);
    assert!(resampler.finish(0.0).is_none());
    assert!(resampler.push(&[], blend).is_empty());
    assert_eq!(resampler.push(&[7.0, 8.0, 9.0, 10.0], blend), vec![vec![7.0, 8.0, 9.0, 10.0]]);
}
