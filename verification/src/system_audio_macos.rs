//! System audio on macOS: a virtual loopback device, with the capture
//! helper as the fallback.

use crate::error::CaptureError;
use crate::buffer::CaptureBuffer;
use crate::selector::BackendSelector;
use crate::selector::CaptureMethod;
use crate::selector::Fallback;
use crate::selector::SelectorState;
use crate::selector::StartAction;
use crate::selector::StartEvent;
use crate::selector::StopAction;
use vstd::prelude::*;

verus! {

/// Where the capture helper is looked for, in this order.
#[derive(Clone, Copy, Debug, PartialEq, Eq, Structural)]
pub enum HelperLocation {
    /// `Resources/bin` of the application bundle that holds the executable.
    Bundle,
    /// `bin` under the working directory.
    WorkingDir,
    /// `src-tauri/bin` under the working directory.
    SourceTree,
    /// `src-tauri/bin` beside the working directory.
    ParentSourceTree,
}

/// The first place at which the helper exists.
pub fn pick_helper(bundle: bool, working_dir: bool, source_tree: bool, parent_source_tree: bool) -> (location:
    Option<HelperLocation>)
    ensures
        location == if bundle {
            Some(HelperLocation::Bundle)
        } else if working_dir {
            Some(HelperLocation::WorkingDir)
        } else if source_tree {
            Some(HelperLocation::SourceTree)
        } else if parent_source_tree {
            Some(HelperLocation::ParentSourceTree)
        } else {
            None
        },
{
    if bundle {
        Some(HelperLocation::Bundle)
    } else if working_dir {
        Some(HelperLocation::WorkingDir)
    } else if source_tree {
        Some(HelperLocation::SourceTree)
    } else if parent_source_tree {
        Some(HelperLocation::ParentSourceTree)
    } else {
        None
    }
}

/// The settings page that helps the user after a start.
#[derive(Clone, Copy, Debug, PartialEq, Eq, Structural)]
pub enum Remedy {
    /// Nothing to mend.
    Nothing,
    /// The sound settings: the loopback device is open but hears nothing,
    /// so output is not routed to it.
    SoundSettings,
    /// The privacy settings: the capture permission was refused.
    PrivacySettings,
}

/// The remedy that the answer to a start calls for.
pub fn remedy_for(action: StartAction) -> (remedy: Remedy)
    ensures
        remedy == match action {
            StartAction::Started { method: CaptureMethod::Loopback, audio_detected: false } =>
                Remedy::SoundSettings,
            StartAction::Failed(CaptureError::PermissionDenied) => Remedy::PrivacySettings,
            _ => Remedy::Nothing,
        },
{
    match action {
        StartAction::Started { method: CaptureMethod::Loopback, audio_detected: false } =>
            Remedy::SoundSettings,
        StartAction::Failed(CaptureError::PermissionDenied) => Remedy::PrivacySettings,
        _ => Remedy::Nothing,
    }
}

/// The macOS backend: loopback device first, then the helper.
pub struct MacOSSystemAudio {
    selector: BackendSelector,
}

impl View for MacOSSystemAudio {
    type V = SelectorState;

    closed spec fn view(&self) -> SelectorState {
        self.selector@
    }
}

impl MacOSSystemAudio {
    /// A backend with nothing started that falls back to the helper.
    pub fn new() -> (backend: Self)
        ensures
            backend@ == SelectorState::initial(Fallback::Helper),
    {
        MacOSSystemAudio { selector: BackendSelector::new(Fallback::Helper) }
    }

    /// Whether the last start ended with the permission refused.
    pub fn is_permission_denied(&self) -> (denied: bool)
        ensures
            denied == self@.permission_denied,
    {
        self.selector.is_permission_denied()
    }

    /// Whether capture is active.
    pub fn is_capturing(&self) -> (capturing: bool)
        ensures
            capturing == self@.capturing,
    {
        self.selector.is_capturing()
    }

    /// Takes the next event of a start and says what to do.
    pub fn step(&mut self, event: StartEvent) -> (action: StartAction)
        ensures
            (final(self)@, action) == old(self)@.next(event),
    {
        self.selector.step(event)
    }

    /// Stops capture and says what to release.
    pub fn stop_capture(&mut self) -> (action: StopAction)
        ensures
            (final(self)@, action) == old(self)@.stopped(),
    {
        self.selector.stop_capture()
    }

    /// Marks capture inactive after the backend broke down.
    pub fn mark_failed(&mut self)
        ensures
            final(self)@ == old(self)@.broken(),
    {
        self.selector.mark_failed()
    }

    /// Takes what was buffered since the last read: everything pending in
    /// `buffer` while capture is active, nothing while it is not.
    pub fn read_samples<T: Copy>(&self, buffer: &mut CaptureBuffer<T>) -> (samples: Option<Vec<T>>)
        ensures
            self@.capturing ==> {
                &&& final(buffer)@ == Seq::<T>::empty()
                &&& old(buffer)@.len() == 0 <==> samples is None
                &&& samples matches Some(s) ==> s@ == old(buffer)@
            },
            !self@.capturing ==> samples is None && final(buffer)@ == old(buffer)@,
    {
        self.selector.read_samples(buffer)
    }
}

} // verus!
