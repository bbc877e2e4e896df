//! The capability that every system-audio backend offers.

use crate::error::CaptureError;
use vstd::prelude::*;

verus! {

/// A source of captured system audio.
///
/// `start_capture` on a backend that captures already succeeds and changes
/// nothing. `read_samples` never blocks: it hands over every whole mono
/// sample buffered since the last call, or `None` when nothing is
/// buffered. After a breakdown the backend is inactive and reads give
/// nothing until it is started again. Callers serialise their calls.
pub trait SystemAudioCapture<T> {
    /// Starts capturing.
    fn start_capture(&mut self) -> Result<(), CaptureError>;

    /// Stops capturing and releases the device or process.
    fn stop_capture(&mut self) -> Result<(), CaptureError>;

    /// Takes what was buffered since the last read.
    fn read_samples(&mut self) -> Result<Option<Vec<T>>, CaptureError>;

    /// Whether the backend is capturing.
    fn is_capturing(&self) -> bool;
}

/// The backend of a platform that cannot capture system audio.
pub struct DummySystemAudio<T> {
    sample: core::marker::PhantomData<T>,
}

impl<T> DummySystemAudio<T> {
    /// The backend that captures nothing.
    pub fn new() -> Self {
        DummySystemAudio { sample: core::marker::PhantomData }
    }
}

impl<T> SystemAudioCapture<T> for DummySystemAudio<T> {
    /// Always fails: there is nothing to capture with.
    fn start_capture(&mut self) -> (started: Result<(), CaptureError>)
        ensures
            started == Err::<(), CaptureError>(CaptureError::Unavailable),
    {
        Err(CaptureError::Unavailable)
    }

    /// Always succeeds: there is nothing to stop.
    fn stop_capture(&mut self) -> (stopped: Result<(), CaptureError>)
        ensures
            stopped is Ok,
    {
        Ok(())
    }

    /// Never has samples.
    fn read_samples(&mut self) -> (read: Result<Option<Vec<T>>, CaptureError>)
        ensures
            read matches Ok(None),
    {
        Ok(None)
    }

    /// Never captures.
    fn is_capturing(&self) -> (capturing: bool)
        ensures
            !capturing,
    {
        false
    }
}

} // verus!
