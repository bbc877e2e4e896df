use capture_core::buffer::mix_down;
use capture_core::buffer::CaptureBuffer;
use capture_core::buffer::PROBE_WINDOW_SAMPLES;
use capture_core::devices::check_format;
use capture_core::devices::find_blackhole_device;
use capture_core::devices::get_effective_microphone_device;
use capture_core::devices::is_loopback_name;
use capture_core::devices::is_supported_format;
use capture_core::devices::routes_to_loopback;
use capture_core::devices::SampleFormat;
use capture_core::error::CaptureError;
use capture_core::helper::decode_samples;
use capture_core::system_audio_macos::MacOSSystemAudio;
use capture_core::selector::HelperLaunch;
use capture_core::selector::HelperStatus;
use capture_core::selector::StartEvent;
use capture_core::helper::SampleFramer;
use capture_core::helper::StderrMonitor;
use capture_core::helper::BYTES_PER_SAMPLE;
use capture_core::helper::HELPER_SAMPLE_RATE_HZ;
use capture_core::permissions::get_macos_version;
use capture_core::permissions::parse_version;
use capture_core::permissions::supports_screencapturekit;
use capture_core::screencapturekit::did_output_sample_buffer;
use capture_core::screencapturekit::ChannelBuffer;
use capture_core::screencapturekit::ScreenCaptureKitAudio;
use capture_core::screencapturekit::StartFailure;
use capture_core::screencapturekit::StreamStartup;
use capture_core::screencapturekit::STREAM_CHANNELS;
use capture_core::screencapturekit::STREAM_SAMPLE_RATE_HZ;
use capture_core::text::contains;
use capture_core::text::contains_bytes;

fn names(list: &[&str]) -> Vec<String> {
    list.iter().map(|n| n.to_string()).collect()
}

fn average(frame: &[f32]) -> f32 {
    frame.iter().sum::<f32>() / frame.len() as f32
}

#[test]
fn test_create_audio_capture() {
    let capture = ScreenCaptureKitAudio::new(Some((13, 0)));
    assert!(capture.is_ok());
    assert!(!capture.unwrap().is_capturing());
}

#[test]
fn test_version_detection() {
    let version = get_macos_version("14.2.1\n");
    assert!(version.is_some(), "Should detect macOS version");

    if let Some((major, minor)) = version {
        println!("Detected macOS {}.{}", major, minor);
        assert!(major >= 10, "macOS major version should be >= 10");
    }
}

#[test]
fn test_screencapturekit_support() {
    let supports = supports_screencapturekit(get_macos_version("14.2.1\n"));
    println!("ScreenCaptureKit supported: {}", supports);
}

#[test]
fn version_is_major_and_minor() {
    assert_eq!(parse_version("13.4.1"), Some((13, 4)));
    assert_eq!(parse_version("10.15"), Some((10, 15)));
    assert_eq!(parse_version("14.0"), Some((14, 0)));
    assert_eq!(parse_version("013.004.7.9"), Some((13, 4)));
    assert_eq!(parse_version("+13.+4"), Some((13, 4)));
    assert_eq!(parse_version("4294967295.0"), Some((4294967295, 0)));
    assert_eq!(parse_version("0.4294967295"), Some((0, 4294967295)));
}

#[test]
fn version_needs_two_numbers() {
    assert_eq!(parse_version(""), None);
    assert_eq!(parse_version("14"), None);
    assert_eq!(parse_version("14."), None);
    assert_eq!(parse_version(".4"), None);
    assert_eq!(parse_version("."), None);
    assert_eq!(parse_version("14..1"), None);
    assert_eq!(parse_version("14.x"), None);
    assert_eq!(parse_version("a.1"), None);
    assert_eq!(parse_version("-1.1"), None);
    assert_eq!(parse_version("+.1"), None);
    assert_eq!(parse_version("1.+"), None);
    assert_eq!(parse_version("1 .1"), None);
    assert_eq!(parse_version("13.4 "), None);
    assert_eq!(parse_version("4294967296.0"), None);
    assert_eq!(parse_version("0.4294967296"), None);
    assert_eq!(parse_version("99999999999999999999999999.0"), None);
    assert_eq!(parse_version("99999999999999999999999999x.0"), None);
    assert_eq!(parse_version("13.٤"), None);
}

#[test]
fn version_text_is_trimmed_first() {
    assert_eq!(get_macos_version("  13.4.1\n"), Some((13, 4)));
    assert_eq!(get_macos_version("\t12.6\r\n"), Some((12, 6)));
    assert_eq!(get_macos_version("15.1"), Some((15, 1)));
    assert_eq!(get_macos_version("\n"), None);
    assert_eq!(get_macos_version("13 .4"), None);
}

#[test]
fn native_capture_needs_release_thirteen() {
    assert!(supports_screencapturekit(Some((13, 0))));
    assert!(supports_screencapturekit(Some((14, 2))));
    assert!(supports_screencapturekit(Some((u32::MAX, 0))));
    assert!(!supports_screencapturekit(Some((12, 99))));
    assert!(!supports_screencapturekit(Some((0, 13))));
    assert!(!supports_screencapturekit(None));
    assert!(matches!(ScreenCaptureKitAudio::new(None), Err(CaptureError::Unavailable)));
    assert!(matches!(ScreenCaptureKitAudio::new(Some((12, 7))), Err(CaptureError::Unavailable)));
}

#[test]
fn native_stream_start_is_idempotent() {
    assert_eq!(STREAM_SAMPLE_RATE_HZ, 48000);
    assert_eq!(STREAM_CHANNELS, 2);
    let mut stream = ScreenCaptureKitAudio::new(Some((14, 0))).unwrap();
    assert_eq!(stream.start_capture(), StreamStartup::Configure);
    assert_eq!(stream.capture_started(Err(StartFailure::ShareableContent)), Err(CaptureError::PermissionDenied));
    assert_eq!(stream.capture_started(Err(StartFailure::NoDisplay)), Err(CaptureError::DeviceNotFound));
    assert_eq!(stream.capture_started(Err(StartFailure::Configuration)), Err(CaptureError::Unavailable));
    assert_eq!(stream.capture_started(Err(StartFailure::Stream)), Err(CaptureError::Unavailable));
    assert!(!stream.is_capturing());
    assert_eq!(stream.start_capture(), StreamStartup::Configure);
    assert_eq!(stream.capture_started(Ok(())), Ok(()));
    assert!(stream.is_capturing());
    assert_eq!(stream.start_capture(), StreamStartup::AlreadyCapturing);
    assert!(stream.stop_capture());
    assert!(!stream.is_capturing());
    assert!(!stream.stop_capture());
}

#[test]
fn sample_bytes_are_little_endian_words() {
    assert_eq!(HELPER_SAMPLE_RATE_HZ, 48000);
    assert_eq!(BYTES_PER_SAMPLE, 4);
    let mut bytes = Vec::new();
    let samples = [1.0f32, -0.5, 0.0, 3.25e-5, f32::MAX, f32::MIN_POSITIVE];
    for sample in samples {
        bytes.extend_from_slice(&sample.to_le_bytes());
    }
    let words = decode_samples(&bytes);
    assert_eq!(words.len(), samples.len());
    for (word, sample) in words.iter().zip(samples) {
        assert_eq!(f32::from_bits(*word), sample);
    }
    assert_eq!(decode_samples(&[0x00, 0x00, 0x80, 0x3f]), vec![0x3f80_0000]);
    assert_eq!(decode_samples(&[0x01, 0x02, 0x03, 0x04]), vec![0x0403_0201]);
    assert_eq!(decode_samples(&[0xff, 0xff, 0xff, 0xff]), vec![u32::MAX]);
}

#[test]
fn trailing_bytes_of_a_read_are_dropped() {
    assert!(decode_samples(&[]).is_empty());
    assert!(decode_samples(&[1, 2, 3]).is_empty());
    assert_eq!(decode_samples(&[1, 0, 0, 0, 9]), vec![1]);
    assert_eq!(decode_samples(&[1, 0, 0, 0, 2, 0, 0, 0, 9, 9, 9]), vec![1, 2]);
}

fn bytes_of(samples: &[f32]) -> Vec<u8> {
    samples.iter().flat_map(|s| s.to_le_bytes()).collect()
}

fn average_words(frame: &[u32]) -> u32 {
    let samples: Vec<f32> = frame.iter().map(|w| f32::from_bits(*w)).collect();
    average(&samples).to_bits()
}

fn mono_of(is_audio: bool, buffers: &Vec<ChannelBuffer>) -> Vec<f32> {
    did_output_sample_buffer(is_audio, buffers, average_words).into_iter().map(f32::from_bits).collect()
}

#[test]
fn only_audio_buffers_are_taken() {
    let buffers = vec![ChannelBuffer { channels: 1, data: bytes_of(&[1.0, 2.0, 3.0]) }];
    assert_eq!(mono_of(true, &buffers), vec![1.0, 2.0, 3.0]);
    assert!(mono_of(false, &buffers).is_empty());
    assert!(mono_of(true, &Vec::new()).is_empty());
}

#[test]
fn two_channels_in_one_buffer_give_one_sample_a_frame() {
    let buffers = vec![ChannelBuffer { channels: 2, data: bytes_of(&[1.0, 3.0, -2.0, 2.0, 0.5, 0.5]) }];
    assert_eq!(mono_of(true, &buffers), vec![2.0, 0.0, 0.5]);
    // A sample without its partner and bytes without a sample are dropped.
    let mut data = bytes_of(&[1.0, 3.0, 5.0]);
    data.push(7);
    let buffers = vec![ChannelBuffer { channels: 2, data }];
    assert_eq!(mono_of(true, &buffers), vec![2.0]);
}

#[test]
fn one_buffer_for_each_channel_gives_one_sample_a_frame() {
    let buffers = vec![
        ChannelBuffer { channels: 1, data: bytes_of(&[1.0, -2.0, 0.5, 9.0]) },
        ChannelBuffer { channels: 1, data: bytes_of(&[3.0, 2.0, 0.5]) },
    ];
    assert_eq!(mono_of(true, &buffers), vec![2.0, 0.0, 0.5]);
    let buffers = vec![
        ChannelBuffer { channels: 2, data: bytes_of(&[1.0, 2.0, 4.0, 5.0]) },
        ChannelBuffer { channels: 1, data: bytes_of(&[3.0, 6.0]) },
    ];
    assert_eq!(mono_of(true, &buffers), vec![2.0, 5.0]);
    let buffers = vec![
        ChannelBuffer { channels: 1, data: bytes_of(&[1.0]) },
        ChannelBuffer { channels: 0, data: bytes_of(&[3.0]) },
    ];
    assert!(mono_of(true, &buffers).is_empty());
}

#[test]
fn stream_is_framed_across_reads() {
    let samples = [1.0f32, -0.5, 3.25e-5, 7.0, 0.0, -1.0];
    let stream = bytes_of(&samples);
    let whole = decode_samples(&stream);
    for sizes in [vec![24usize], vec![1], vec![3, 5], vec![5, 1, 7], vec![4, 4], vec![23, 1]] {
        let mut framer = SampleFramer::new();
        let mut words = Vec::new();
        let mut at = 0;
        let mut turn = 0;
        while at < stream.len() {
            let size = sizes[turn % sizes.len()].min(stream.len() - at);
            words.extend(framer.push(&stream[at..at + size]));
            at += size;
            turn += 1;
            assert_eq!(framer.carried_len(), at % 4);
            assert_eq!(words.len(), at / 4);
        }
        assert_eq!(words, whole);
    }
    let mut framer = SampleFramer::new();
    assert!(framer.push(&[]).is_empty());
    assert!(framer.push(&[0x00, 0x00]).is_empty());
    assert_eq!(framer.carried_len(), 2);
    assert_eq!(framer.push(&[0x80, 0x3f, 0x01]), vec![0x3f80_0000]);
    assert_eq!(framer.carried_len(), 1);
}

#[test]
fn permission_refusal_is_acted_on_once() {
    let mut monitor = StderrMonitor::new();
    assert!(!monitor.permission_denied());
    assert!(!monitor.observe("capture started"));
    assert!(!monitor.observe("permission denied"));
    assert!(!monitor.observe(""));
    assert!(!monitor.permission_denied());
    assert!(monitor.observe("[SCK Helper] ❌ PERMISSION DENIED by user"));
    assert!(monitor.permission_denied());
    assert!(!monitor.observe("PERMISSION DENIED"));
    assert!(!monitor.observe("the user declined TCCs for the application"));
    assert!(monitor.permission_denied());
    let mut monitor = StderrMonitor::new();
    assert!(monitor.observe("the user declined TCCs for the application"));
}

#[test]
fn text_search_finds_patterns_anywhere() {
    assert!(contains("BlackHole 2ch", "BlackHole"));
    assert!(contains("My BlackHole", "BlackHole"));
    assert!(contains("xBlackHolex", "BlackHole"));
    assert!(!contains("Blackhole", "BlackHole"));
    assert!(!contains("BlackHol", "BlackHole"));
    assert!(!contains("", "BlackHole"));
    assert!(contains("", ""));
    assert!(contains("abc", ""));
    assert!(contains("aab", "ab"));
    assert!(contains("Mikrofon äöü", "äö"));
    assert!(!contains("Mikrofon äöü", "öä"));
    assert!(contains_bytes(&[1, 2, 3, 4], &[3, 4]));
    assert!(contains_bytes(&[1, 2, 3, 4], &[1]));
    assert!(!contains_bytes(&[1, 2, 3, 4], &[4, 3]));
    assert!(!contains_bytes(&[1, 2], &[1, 2, 3]));
}

#[test]
fn loopback_devices_are_known_by_name() {
    assert!(is_loopback_name("BlackHole 2ch"));
    assert!(is_loopback_name("blackhole-16ch"));
    assert!(!is_loopback_name("BLACKHOLE"));
    assert!(!is_loopback_name("MacBook Pro Microphone"));
    assert!(!is_loopback_name("Multi-Output Device"));
    assert!(routes_to_loopback("Multi-Output Device"));
    assert!(routes_to_loopback("BlackHole 2ch"));
    assert!(!routes_to_loopback("MacBook Pro Speakers"));
    assert_eq!(find_blackhole_device(&names(&["Mic", "BlackHole 2ch", "blackhole 16ch"])), Some(1));
    assert_eq!(find_blackhole_device(&names(&["blackhole", "BlackHole"])), Some(0));
    assert_eq!(find_blackhole_device(&names(&["Mic", "Line In"])), None);
    assert_eq!(find_blackhole_device(&Vec::new()), None);
}

#[test]
fn microphone_is_resolved_by_name() {
    let devices = names(&["Built-in", "USB Mic", "Headset", "USB Mic"]);
    let usb = Some("USB Mic".to_string());
    let headset = Some("Headset".to_string());
    let gone = Some("Unplugged".to_string());
    assert_eq!(get_effective_microphone_device(false, &None, &usb, &devices), Some(1));
    assert_eq!(get_effective_microphone_device(false, &headset, &usb, &devices), Some(1));
    assert_eq!(get_effective_microphone_device(true, &headset, &usb, &devices), Some(2));
    assert_eq!(get_effective_microphone_device(true, &None, &usb, &devices), Some(1));
    assert_eq!(get_effective_microphone_device(true, &headset, &None, &devices), Some(2));
    // Nothing selected, or the selected device is gone: the default device.
    assert_eq!(get_effective_microphone_device(false, &headset, &None, &devices), None);
    assert_eq!(get_effective_microphone_device(false, &None, &None, &devices), None);
    assert_eq!(get_effective_microphone_device(false, &None, &gone, &devices), None);
    assert_eq!(get_effective_microphone_device(true, &gone, &usb, &devices), None);
    assert_eq!(get_effective_microphone_device(false, &None, &usb, &Vec::new()), None);
}

#[test]
fn three_sample_formats_are_supported() {
    assert!(is_supported_format(SampleFormat::F32));
    assert!(is_supported_format(SampleFormat::I16));
    assert!(is_supported_format(SampleFormat::I32));
    assert!(!is_supported_format(SampleFormat::Other));
    assert_eq!(check_format(SampleFormat::F32), Ok(()));
    assert_eq!(check_format(SampleFormat::I16), Ok(()));
    assert_eq!(check_format(SampleFormat::I32), Ok(()));
    assert_eq!(check_format(SampleFormat::Other), Err(CaptureError::FormatUnsupported));
}

#[test]
fn buffer_drains_in_arrival_order() {
    let mut buffer: CaptureBuffer<f32> = CaptureBuffer::new();
    assert!(buffer.is_empty());
    assert!(buffer.drain().is_none());
    buffer.extend(&[1.0, 2.0]);
    buffer.extend(&[]);
    buffer.extend(&[3.0]);
    assert_eq!(buffer.len(), 3);
    assert!(!buffer.is_empty());
    assert_eq!(buffer.drain(), Some(vec![1.0, 2.0, 3.0]));
    assert!(buffer.is_empty());
    assert!(buffer.drain().is_none());
    buffer.extend(&[4.0]);
    assert_eq!(buffer.drain(), Some(vec![4.0]));
    buffer.extend(&[5.0, 6.0]);
    buffer.clear();
    assert!(buffer.drain().is_none());
}

#[test]
fn probe_looks_at_the_most_recent_second() {
    assert_eq!(PROBE_WINDOW_SAMPLES, 48000);
    let mut buffer: CaptureBuffer<f32> = CaptureBuffer::new();
    assert!(buffer.recent(PROBE_WINDOW_SAMPLES).is_empty());
    let samples: Vec<f32> = (0..50000).map(|i| i as f32).collect();
    buffer.extend(&samples);
    assert_eq!(buffer.recent(PROBE_WINDOW_SAMPLES), samples[2000..].to_vec());
    assert_eq!(buffer.recent(3), vec![49997.0, 49998.0, 49999.0]);
    assert_eq!(buffer.recent(50000), samples);
    assert_eq!(buffer.recent(usize::MAX), samples);
    assert!(buffer.recent(0).is_empty());
    // Looking takes nothing out.
    assert_eq!(buffer.len(), 50000);
}

#[test]
fn frames_are_averaged_to_mono() {
    assert_eq!(mix_down(&[1.0f32, 2.0, 3.0], 1, average), vec![1.0, 2.0, 3.0]);
    assert_eq!(mix_down(&[1.0f32, 3.0, -2.0, 2.0], 2, average), vec![2.0, 0.0]);
    // An incomplete frame at the end is dropped.
    assert_eq!(mix_down(&[1.0f32, 3.0, 5.0], 2, average), vec![2.0]);
    assert_eq!(mix_down(&[3.0f32, 6.0, 9.0, 1.0, 1.0, 1.0, 8.0], 3, average), vec![6.0, 1.0]);
    assert!(mix_down(&[1.0f32], 2, average).is_empty());
    assert!(mix_down(&[] as &[f32], 2, average).is_empty());
    assert!(mix_down(&[] as &[f32], 1, average).is_empty());
}

#[test]
fn errors_have_messages() {
    assert!(CaptureError::PermissionDenied.is_permission_denied());
    assert!(!CaptureError::DeviceNotFound.is_permission_denied());
    assert!(!CaptureError::FormatUnsupported.is_permission_denied());
    assert!(!CaptureError::Unavailable.is_permission_denied());
    assert!(CaptureError::PermissionDenied.message().starts_with("Screen Recording permission denied."));
    assert_eq!(CaptureError::DeviceNotFound.message(), "Failed to find audio device for capture");
    assert_eq!(CaptureError::FormatUnsupported.message(), "Unsupported sample format");
    assert_eq!(CaptureError::Unavailable.message(), "System audio capture not available");
}

#[test]
fn reads_give_nothing_while_capture_is_inactive() {
    let mut backend = MacOSSystemAudio::new();
    let mut buffer: CaptureBuffer<f32> = CaptureBuffer::new();
    buffer.extend(&[1.0, 2.0]);
    assert!(backend.read_samples(&mut buffer).is_none());
    assert_eq!(buffer.len(), 2);
    backend.step(StartEvent::Begin);
    backend.step(StartEvent::DeviceSearched { found: false });
    backend.step(StartEvent::HelperLaunched(HelperLaunch::Spawned));
    backend.step(StartEvent::HelperChecked(HelperStatus::Running));
    assert_eq!(backend.read_samples(&mut buffer), Some(vec![1.0, 2.0]));
    assert!(backend.read_samples(&mut buffer).is_none());
    buffer.extend(&[3.0]);
    backend.mark_failed();
    assert!(backend.read_samples(&mut buffer).is_none());
    assert_eq!(buffer.len(), 1);
}
