//! System audio on Windows: the default output device in loopback mode,
//! with nothing to fall back to.

use crate::buffer::CaptureBuffer;
use crate::selector::BackendSelector;
use crate::selector::Fallback;
use crate::selector::SelectorState;
use crate::selector::StartAction;
use crate::selector::StartEvent;
use crate::selector::StopAction;
use vstd::prelude::*;

verus! {

/// The Windows backend: loopback capture of the default output device.
pub struct WindowsSystemAudio {
    selector: BackendSelector,
}

impl View for WindowsSystemAudio {
    type V = SelectorState;

    closed spec fn view(&self) -> SelectorState {
        self.selector@
    }
}

impl WindowsSystemAudio {
    /// A backend with nothing started and no fallback.
    pub fn new() -> (backend: Self)
        ensures
            backend@ == SelectorState::initial(Fallback::Nothing),
    {
        WindowsSystemAudio { selector: BackendSelector::new(Fallback::Nothing) }
    }

    /// Whether capture is active.
    pub fn is_capturing(&self) -> (capturing: bool)
        ensures
            capturing == self@.capturing,
    {
        self.selector.is_capturing()
    }

    /// Takes the next event of a start and says what to do.
    pub fn step(&mut self, event: StartEvent) -> (action: StartAction)
        ensures
            (final(self)@, action) == old(self)@.next(event),
    {
        self.selector.step(event)
    }

    /// Stops capture and says what to release.
    pub fn stop_capture(&mut self) -> (action: StopAction)
        ensures
            (final(self)@, action) == old(self)@.stopped(),
    {
        self.selector.stop_capture()
    }

    /// Marks capture inactive after the backend broke down.
    pub fn mark_failed(&mut self)
        ensures
            final(self)@ == old(self)@.broken(),
    {
        self.selector.mark_failed()
    }

    /// Takes what was buffered since the last read: everything pending in
    /// `buffer` while capture is active, nothing while it is not.
    pub fn read_samples<T: Copy>(&self, buffer: &mut CaptureBuffer<T>) -> (samples: Option<Vec<T>>)
        ensures
            self@.capturing ==> {
                &&& final(buffer)@ == Seq::<T>::empty()
                &&& old(buffer)@.len() == 0 <==> samples is None
                &&& samples matches Some(s) ==> s@ == old(buffer)@
            },
            !self@.capturing ==> samples is None && final(buffer)@ == old(buffer)@,
    {
        self.selector.read_samples(buffer)
    }
}

} // verus!
