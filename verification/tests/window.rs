use capture_core::segment::pad_short_segment;
use capture_core::segment::PADDED_SEGMENT_SAMPLES;
use capture_core::segment::TARGET_SAMPLE_RATE;
use capture_core::window::SlidingWindow;
use capture_core::window::MIN_SEGMENT_SAMPLES;
use capture_core::window::OVERLAP_SAMPLES;

fn numbered(from: usize, len: usize) -> Vec<f32> {
    (from..from + len).map(|i| i as f32).collect()
}

#[test]
fn window_constants_are_two_and_one_second() {
    assert_eq!(MIN_SEGMENT_SAMPLES, 2 * 16000);
    assert_eq!(OVERLAP_SAMPLES, 16000);
    assert_eq!(TARGET_SAMPLE_RATE, 16000);
    assert_eq!(PADDED_SEGMENT_SAMPLES, 20000);
}

#[test]
fn window_holds_back_below_two_seconds() {
    let mut window: SlidingWindow<f32> = SlidingWindow::for_transcription();
    assert!(window.feed(&numbered(0, 31999)).is_none());
    assert_eq!(window.len(), 31999);
    assert!(window.take_segment().is_none());
    assert_eq!(window.len(), 31999);
}

#[test]
fn window_cuts_all_but_the_last_second() {
    let mut window: SlidingWindow<f32> = SlidingWindow::for_transcription();
    assert!(window.feed(&numbered(0, 31999)).is_none());
    let segment = window.feed(&numbered(31999, 1)).unwrap();
    assert_eq!(segment, numbered(0, 16000));
    assert_eq!(window.len(), 16000);
    // The retained second opens the next window.
    assert!(window.feed(&numbered(32000, 15999)).is_none());
    let segment = window.feed(&numbered(47999, 5)).unwrap();
    assert_eq!(segment, numbered(16000, 16004));
    assert_eq!(window.len(), 16000);
}

#[test]
fn window_loses_no_sample() {
    let sizes = [0usize, 5, 48000, 1, 15999, 0, 16000, 70000, 3, 31999, 2, 0];
    let mut window: SlidingWindow<f32> = SlidingWindow::for_transcription();
    let mut all = Vec::new();
    let mut emitted = Vec::new();
    let mut next = 0;
    for size in sizes {
        let read = numbered(next, size);
        next += size;
        all.extend_from_slice(&read);
        if let Some(segment) = window.feed(&read) {
            assert!(!segment.is_empty());
            emitted.extend(segment);
            assert!(window.len() <= OVERLAP_SAMPLES);
        }
    }
    let retained = window.len();
    assert_eq!(emitted.len() + retained, all.len());
    assert_eq!(emitted[..], all[..emitted.len()]);
    // What is still held is the rest, and comes out once enough follows.
    let tail = numbered(next, MIN_SEGMENT_SAMPLES);
    all.extend_from_slice(&tail);
    emitted.extend(window.feed(&tail).unwrap());
    assert_eq!(emitted[..], all[..emitted.len()]);
    assert_eq!(all.len() - emitted.len(), OVERLAP_SAMPLES);
}

#[test]
fn window_takes_everything_when_no_more_than_the_overlap_is_held() {
    let mut window: SlidingWindow<f32> = SlidingWindow::new(4, 10);
    assert!(window.feed(&numbered(0, 3)).is_none());
    let segment = window.feed(&numbered(3, 4)).unwrap();
    assert_eq!(segment, numbered(0, 7));
    assert_eq!(window.len(), 0);
    let mut window: SlidingWindow<f32> = SlidingWindow::new(0, 2);
    assert!(window.take_segment().is_none());
    window.push_samples(&numbered(0, 5));
    assert_eq!(window.take_segment().unwrap(), numbered(0, 3));
    assert_eq!(window.len(), 2);
}

#[test]
fn half_a_second_is_padded_to_one_and_a_quarter() {
    let samples: Vec<f32> = vec![0.25; 8000];
    let padded = pad_short_segment(samples, 0.0);
    assert_eq!(padded.len(), 20000);
    assert!(padded[..8000].iter().all(|s| *s == 0.25));
    assert!(padded[8000..].iter().all(|s| *s == 0.0));
}

#[test]
fn three_seconds_pass_unchanged() {
    let samples = numbered(0, 48000);
    assert_eq!(pad_short_segment(samples.clone(), 0.0), samples);
}

#[test]
fn padding_applies_below_one_second_only() {
    assert_eq!(pad_short_segment(Vec::<f32>::new(), 0.0), vec![0.0f32; 20000]);
    assert_eq!(pad_short_segment(vec![1.0f32], 0.0).len(), 20000);
    assert_eq!(pad_short_segment(vec![1.0f32; 15999], 0.0).len(), 20000);
    assert_eq!(pad_short_segment(vec![1.0f32; 16000], 0.0).len(), 16000);
    assert_eq!(pad_short_segment(vec![1.0f32; 20001], 0.0).len(), 20001);
}
