use capture_core::recorder::SessionRecorder;
use capture_core::vad::SmoothedVad;
use capture_core::vad::VadFrame;

fn frame(tag: u32) -> Vec<f32> {
    vec![tag as f32, tag as f32 + 0.5]
}

fn samples(out: VadFrame<f32>) -> Option<Vec<f32>> {
    match out {
        VadFrame::Noise => None,
        VadFrame::Speech(samples) => Some(samples),
    }
}

fn joined(tags: &[u32]) -> Vec<f32> {
    tags.iter().flat_map(|t| frame(*t)).collect()
}

#[test]
fn vad_rejects_bad_parameters() {
    assert!(SmoothedVad::<f32>::new(2, 2, 0).is_none());
    assert!(SmoothedVad::<f32>::new(0, 0, 1).is_none());
    assert!(SmoothedVad::<f32>::new(2, 0, 2).is_none());
    assert!(SmoothedVad::<f32>::new(4, 2, 3).is_some());
    assert!(SmoothedVad::<f32>::new(15, 15, 2).is_some());
    assert!(SmoothedVad::<f32>::new(3, 2, 3).is_some());
    assert!(SmoothedVad::<f32>::new(0, 1, 1).is_some());
}

#[test]
fn vad_ignores_an_isolated_speech_frame() {
    let mut vad: SmoothedVad<f32> = SmoothedVad::new(2, 2, 3).unwrap();
    assert!(samples(vad.push_frame(&frame(1), false)).is_none());
    assert!(samples(vad.push_frame(&frame(2), true)).is_none());
    assert!(!vad.is_speech());
    assert!(samples(vad.push_frame(&frame(3), false)).is_none());
    assert!(!vad.is_speech());
    // Two speech frames are not enough either when the attack is three.
    assert!(samples(vad.push_frame(&frame(4), true)).is_none());
    assert!(samples(vad.push_frame(&frame(5), true)).is_none());
    assert!(samples(vad.push_frame(&frame(6), false)).is_none());
    assert!(!vad.is_speech());
}

#[test]
fn vad_switches_after_the_attack_and_releases_the_pre_roll() {
    let mut vad: SmoothedVad<f32> = SmoothedVad::new(2, 2, 3).unwrap();
    for tag in 1..=4 {
        assert!(samples(vad.push_frame(&frame(tag), false)).is_none());
    }
    assert!(samples(vad.push_frame(&frame(5), true)).is_none());
    assert!(samples(vad.push_frame(&frame(6), true)).is_none());
    assert!(!vad.is_speech());
    let released = samples(vad.push_frame(&frame(7), true)).unwrap();
    assert!(vad.is_speech());
    // Two frames of pre-roll, then the three frames of the attack.
    assert_eq!(released, joined(&[3, 4, 5, 6, 7]));
    // In speech, frames pass as they come.
    assert_eq!(samples(vad.push_frame(&frame(8), true)).unwrap(), frame(8));
}

#[test]
fn vad_releases_less_pre_roll_when_less_was_seen() {
    let mut vad: SmoothedVad<f32> = SmoothedVad::new(2, 1, 2).unwrap();
    assert!(samples(vad.push_frame(&frame(1), true)).is_none());
    assert_eq!(samples(vad.push_frame(&frame(2), true)).unwrap(), joined(&[1, 2]));
    let mut vad: SmoothedVad<f32> = SmoothedVad::new(0, 1, 1).unwrap();
    assert!(samples(vad.push_frame(&frame(1), false)).is_none());
    assert_eq!(samples(vad.push_frame(&frame(2), true)).unwrap(), frame(2));
}

#[test]
fn vad_counts_a_broken_attack_into_the_pre_roll() {
    let mut vad: SmoothedVad<f32> = SmoothedVad::new(2, 2, 2).unwrap();
    assert!(samples(vad.push_frame(&frame(1), true)).is_none());
    assert!(samples(vad.push_frame(&frame(2), false)).is_none());
    assert!(samples(vad.push_frame(&frame(3), true)).is_none());
    let released = samples(vad.push_frame(&frame(4), true)).unwrap();
    assert_eq!(released, joined(&[1, 2, 3, 4]));
}

#[test]
fn vad_switches_back_after_the_release_and_passes_the_trail() {
    let mut vad: SmoothedVad<f32> = SmoothedVad::new(1, 2, 1).unwrap();
    assert_eq!(samples(vad.push_frame(&frame(1), true)).unwrap(), frame(1));
    assert!(vad.is_speech());
    // One quiet frame is bridged.
    assert_eq!(samples(vad.push_frame(&frame(2), false)).unwrap(), frame(2));
    assert!(vad.is_speech());
    assert_eq!(samples(vad.push_frame(&frame(3), true)).unwrap(), frame(3));
    // Two quiet frames in a row end the speech; both are still passed on.
    assert_eq!(samples(vad.push_frame(&frame(4), false)).unwrap(), frame(4));
    assert!(vad.is_speech());
    assert_eq!(samples(vad.push_frame(&frame(5), false)).unwrap(), frame(5));
    assert!(!vad.is_speech());
    assert!(samples(vad.push_frame(&frame(6), false)).is_none());
    // The next onset has the frame after the release as its pre-roll.
    assert_eq!(samples(vad.push_frame(&frame(7), true)).unwrap(), joined(&[6, 7]));
}

#[test]
fn vad_reset_forgets_held_frames() {
    let mut vad: SmoothedVad<f32> = SmoothedVad::new(2, 2, 2).unwrap();
    assert!(samples(vad.push_frame(&frame(1), false)).is_none());
    assert!(samples(vad.push_frame(&frame(2), true)).is_none());
    vad.reset();
    assert!(!vad.is_speech());
    assert!(samples(vad.push_frame(&frame(3), true)).is_none());
    assert_eq!(samples(vad.push_frame(&frame(4), true)).unwrap(), joined(&[3, 4]));
}

#[test]
fn recorder_collects_released_speech_while_recording() {
    let vad: SmoothedVad<f32> = SmoothedVad::new(1, 1, 2).unwrap();
    let mut recorder = SessionRecorder::new(vad);
    assert!(!recorder.is_recording());
    // Frames before the start are dropped and do not reach the detector.
    recorder.push_frame(&frame(1), true);
    recorder.push_frame(&frame(2), true);
    assert!(recorder.stop().is_empty());
    recorder.start();
    assert!(recorder.is_recording());
    recorder.push_frame(&frame(3), false);
    recorder.push_frame(&frame(4), false);
    recorder.push_frame(&frame(5), true);
    recorder.push_frame(&frame(6), true);
    recorder.push_frame(&frame(7), false);
    recorder.push_frame(&frame(8), false);
    recorder.push_frame(&frame(9), true);
    assert_eq!(recorder.stop(), joined(&[4, 5, 6, 7]));
    assert!(!recorder.is_recording());
    assert!(recorder.stop().is_empty());
    // A new recording starts with nothing collected and a fresh detector.
    recorder.push_frame(&frame(10), true);
    recorder.start();
    recorder.push_frame(&frame(11), true);
    recorder.push_frame(&frame(12), true);
    assert_eq!(recorder.stop(), joined(&[11, 12]));
}

#[test]
fn vad_holds_a_pre_roll_longer_than_the_attack() {
    let mut vad: SmoothedVad<f32> = SmoothedVad::new(3, 15, 2).unwrap();
    for tag in 1..=5 {
        assert!(samples(vad.push_frame(&frame(tag), false)).is_none());
    }
    assert!(samples(vad.push_frame(&frame(6), true)).is_none());
    let released = samples(vad.push_frame(&frame(7), true)).unwrap();
    assert_eq!(released, joined(&[3, 4, 5, 6, 7]));
    assert!(vad.is_speech());
}
