//! Native capture of system audio through the screen-capture service of
//! macOS 13 and later.
//!
//! The service hands over sample buffers from its own thread. Only audio
//! buffers are taken; their bytes are framed into sample words, the
//! channels of each frame are mixed down to one mono sample, and that is
//! queued for the reader. The stream itself is the caller's; the flags that say
//! whether it runs are kept here.

use crate::buffer::averaged;
use crate::error::CaptureError;
use crate::helper::decode_samples;
use crate::helper::decoded;
use crate::permissions::supports_screencapturekit;
use crate::permissions::FIRST_SUPPORTED_MAJOR;
use vstd::prelude::*;

verus! {

/// Rate, in Hz, at which the service is asked to deliver.
pub const STREAM_SAMPLE_RATE_HZ: u32 = 48000;

/// Channels that the service is asked to deliver.
pub const STREAM_CHANNELS: u32 = 2;

/// The step of starting the stream that failed.
#[derive(Clone, Copy, Debug, PartialEq, Eq, Structural)]
pub enum StartFailure {
    /// The stream could not be configured for audio.
    Configuration,
    /// The shareable content could not be listed, which is what a missing
    /// screen-recording permission looks like.
    ShareableContent,
    /// There is no display to capture from.
    NoDisplay,
    /// The stream did not start.
    Stream,
}

/// The error that a failed step stands for.
pub open spec fn error_of(failure: StartFailure) -> CaptureError {
    match failure {
        StartFailure::ShareableContent => CaptureError::PermissionDenied,
        StartFailure::NoDisplay => CaptureError::DeviceNotFound,
        StartFailure::Configuration => CaptureError::Unavailable,
        StartFailure::Stream => CaptureError::Unavailable,
    }
}

/// Answer to a request to start.
#[derive(Clone, Copy, Debug, PartialEq, Eq, Structural)]
pub enum StreamStartup {
    /// The stream runs already; nothing is to be done.
    AlreadyCapturing,
    /// The caller is to configure and start the stream and to report the result.
    Configure,
}

/// One buffer of a callback: the samples of one or more channels, the
/// channels of a frame side by side.
pub struct ChannelBuffer {
    /// Channels that the buffer holds.
    pub channels: u32,
    /// The samples as bytes, four to a sample, little-endian.
    pub data: Vec<u8>,
}

impl ChannelBuffer {
    /// The sample words of the buffer.
    pub open spec fn words(self) -> Seq<u32> {
        decoded(self.data@)
    }

    /// The whole frames that the buffer holds; none if it has no channel.
    pub open spec fn frames(self) -> nat {
        if self.channels == 0 {
            0
        } else {
            self.words().len() / (self.channels as nat)
        }
    }

    /// The words of frame `i`, one for each channel of the buffer.
    pub open spec fn frame(self, i: int) -> Seq<u32> {
        self.words().subrange(i * self.channels, (i + 1) * self.channels)
    }
}

/// The frames that all `buffers` hold: as many as the shortest of them.
pub open spec fn frame_count(buffers: Seq<ChannelBuffer>) -> nat
    decreases buffers.len(),
{
    if buffers.len() == 0 {
        0
    } else if buffers.len() == 1 {
        buffers[0].frames()
    } else if buffers.last().frames() < frame_count(buffers.drop_last()) {
        buffers.last().frames()
    } else {
        frame_count(buffers.drop_last())
    }
}

/// The words of frame `i` across all `buffers`: every channel of the
/// first buffer, then every channel of the next, and so on.
pub open spec fn frame_across(buffers: Seq<ChannelBuffer>, i: int) -> Seq<u32>
    decreases buffers.len(),
{
    if buffers.len() == 0 {
        Seq::empty()
    } else {
        frame_across(buffers.drop_last(), i) + buffers.last().frame(i)
    }
}

/// No buffer holds fewer frames than all of them together.
pub proof fn lemma_frame_count_is_least(buffers: Seq<ChannelBuffer>, b: int)
    requires
        0 <= b < buffers.len(),
    ensures
        frame_count(buffers) <= buffers[b].frames(),
    decreases buffers.len(),
{
    if buffers.len() > 1 && b < buffers.len() - 1 {
        lemma_frame_count_is_least(buffers.drop_last(), b);
    }
}

/// Takes the sample buffers of one callback and hands on mono samples.
///
/// Buffers that are not audio give nothing. Audio buffers give one sample
/// for every frame that all of them hold: what `average` makes of the
/// words of all channels of the frame. Bytes that fill no whole sample, and
/// samples that fill no whole frame, are dropped.
pub fn did_output_sample_buffer<F: Fn(&[u32]) -> u32>(
    is_audio: bool,
    buffers: &Vec<ChannelBuffer>,
    average: F,
) -> (mono: Vec<u32>)
    requires
        forall|frame: &[u32]| call_requires(average, (frame,)),
    ensures
        !is_audio ==> mono@ == Seq::<u32>::empty(),
        is_audio ==> mono@.len() == frame_count(buffers@),
        is_audio ==> forall|i: int|
            0 <= i < mono@.len() ==> averaged(
                average,
                frame_across(buffers@, i),
                #[trigger] mono@[i],
            ),
{
    let mut mono: Vec<u32> = Vec::new();
    if !is_audio {
        return mono;
    }
    let mut words: Vec<Vec<u32>> = Vec::new();
    let mut frames: usize = 0;
    let mut b: usize = 0;
    while b < buffers.len()
        invariant
            b <= buffers@.len(),
            words@.len() == b,
            forall|j: int| 0 <= j < b ==> (#[trigger] words@[j])@ == buffers@[j].words(),
            frames == frame_count(buffers@.take(b as int)),
        decreases buffers@.len() - b,
    {
        let decoded_words = decode_samples(buffers[b].data.as_slice());
        let channels = buffers[b].channels as usize;
        let held = if channels == 0 {
            0
        } else {
            decoded_words.len() / channels
        };
        proof {
            let done = buffers@.take(b + 1);
            assert(done.drop_last() =~= buffers@.take(b as int));
            assert(done.last() == buffers@[b as int]);
            assert(held == buffers@[b as int].frames());
        }
        if b == 0 || held < frames {
            frames = held;
        }
        words.push(decoded_words);
        b = b + 1;
    }
    assert(buffers@.take(buffers@.len() as int) =~= buffers@);
    let mut i: usize = 0;
    while i < frames
        invariant
            i <= frames,
            frames == frame_count(buffers@),
            words@.len() == buffers@.len(),
            forall|j: int| 0 <= j < words@.len() ==> (#[trigger] words@[j])@ == buffers@[j].words(),
            forall|frame: &[u32]| call_requires(average, (frame,)),
            mono@.len() == i,
            forall|k: int|
                0 <= k < i ==> averaged(average, frame_across(buffers@, k), #[trigger] mono@[k]),
        decreases frames - i,
    {
        let mut frame: Vec<u32> = Vec::new();
        let mut c: usize = 0;
        assert(buffers@.take(0) =~= Seq::<ChannelBuffer>::empty());
        while c < buffers.len()
            invariant
                c <= buffers@.len(),
                i < frames,
                frames == frame_count(buffers@),
                words@.len() == buffers@.len(),
                forall|j: int|
                    0 <= j < words@.len() ==> (#[trigger] words@[j])@ == buffers@[j].words(),
                frame@ == frame_across(buffers@.take(c as int), i as int),
            decreases buffers@.len() - c,
        {
            let channels = buffers[c].channels as usize;
            let source = &words[c];
            let available = source.len();
            let ghost held = frame@;
            proof {
                assert(source@.len() == available);
                lemma_frame_count_is_least(buffers@, c as int);
                let total = source@.len() as int;
                let width = channels as int;
                let most = buffers@[c as int].frames() as int;
                assert(width > 0);
                vstd::arithmetic::div_mod::lemma_fundamental_div_mod(total, width);
                assert(0 <= i * width && (i + 1) * width == i * width + width && (i + 1) * width
                    <= total) by (nonlinear_arith)
                    requires
                        0 <= i < most,
                        width > 0,
                        total == width * (total / width) + total % width,
                        0 <= total % width,
                        most == total / width,
                ;
            }
            let start = i * channels;
            let end = start + channels;
            let mut k: usize = start;
            while k < end
                invariant
                    start <= k <= end <= source@.len(),
                    frame@ == held + source@.subrange(start as int, k as int),
                decreases end - k,
            {
                frame.push(source[k]);
                assert(source@.subrange(start as int, k + 1) =~= source@.subrange(
                    start as int,
                    k as int,
                ).push(source@[k as int]));
                k = k + 1;
            }
            proof {
                let done = buffers@.take(c + 1);
                assert(done.drop_last() =~= buffers@.take(c as int));
                assert(done.last() == buffers@[c as int]);
            }
            c = c + 1;
        }
        assert(buffers@.take(buffers@.len() as int) =~= buffers@);
        let whole = frame.as_slice();
        let sample = average(whole);
        assert(averaged(average, frame_across(buffers@, i as int), sample)) by {
            assert(whole@ == frame_across(buffers@, i as int));
            assert(call_ensures(average, (whole,), sample));
        }
        mono.push(sample);
        i = i + 1;
    }
    mono
}

/// The flags of the native capture stream.
pub struct ScreenCaptureKitAudio {
    is_capturing: bool,
}

impl ScreenCaptureKitAudio {
    /// Whether the stream runs.
    pub closed spec fn capturing(&self) -> bool {
        self.is_capturing
    }

    /// The flags of a stream that does not run yet. Fails with
    /// `Unavailable` where the service does not exist: on a release
    /// before `FIRST_SUPPORTED_MAJOR`, or where no release is known
    /// because this is not macOS.
    pub fn new(version: Option<(u32, u32)>) -> (made: Result<Self, CaptureError>)
        ensures
            match made {
                Ok(stream) => {
                    &&& !stream.capturing()
                    &&& version matches Some((major, _)) && major >= FIRST_SUPPORTED_MAJOR
                },
                Err(e) => {
                    &&& e == CaptureError::Unavailable
                    &&& !(version matches Some((major, _)) && major >= FIRST_SUPPORTED_MAJOR)
                },
            },
    {
        if supports_screencapturekit(version) {
            Ok(ScreenCaptureKitAudio { is_capturing: false })
        } else {
            Err(CaptureError::Unavailable)
        }
    }

    /// Whether the stream runs.
    pub fn is_capturing(&self) -> (capturing: bool)
        ensures
            capturing == self.capturing(),
    {
        self.is_capturing
    }

    /// Asks for the stream to run. A stream that runs is left alone.
    pub fn start_capture(&self) -> (startup: StreamStartup)
        ensures
            startup == if self.capturing() {
                StreamStartup::AlreadyCapturing
            } else {
                StreamStartup::Configure
            },
    {
        if self.is_capturing {
            StreamStartup::AlreadyCapturing
        } else {
            StreamStartup::Configure
        }
    }

    /// Takes the result of configuring and starting the stream.
    pub fn capture_started(&mut self, result: Result<(), StartFailure>) -> (started: Result<
        (),
        CaptureError,
    >)
        ensures
            match result {
                Ok(_) => final(self).capturing() && started is Ok,
                Err(failure) => final(self).capturing() == old(self).capturing() && started
                    == Err::<(), CaptureError>(error_of(failure)),
            },
    {
        match result {
            Ok(_) => {
                self.is_capturing = true;
                Ok(())
            },
            Err(failure) => Err(
                match failure {
                    StartFailure::ShareableContent => CaptureError::PermissionDenied,
                    StartFailure::NoDisplay => CaptureError::DeviceNotFound,
                    StartFailure::Configuration => CaptureError::Unavailable,
                    StartFailure::Stream => CaptureError::Unavailable,
                },
            ),
        }
    }

    /// Stops the stream. Returns whether there is a stream for the caller
    /// to stop.
    pub fn stop_capture(&mut self) -> (stop_stream: bool)
        ensures
            !final(self).capturing(),
            stop_stream == old(self).capturing(),
    {
        let was = self.is_capturing;
        self.is_capturing = false;
        was
    }
}

} // verus!
