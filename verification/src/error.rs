//! Why a capture backend could not be started or read.

use vstd::prelude::*;

verus! {

/// The ways in which a capture backend fails.
///
/// A device that is open but silent is not among them: capture then stays
/// active and audio may arrive later.
#[derive(Clone, Copy, Debug, PartialEq, Eq, Structural)]
pub enum CaptureError {
    /// The operating system has not granted permission to capture. This is
    /// kept apart from every other failure because the user can mend it.
    PermissionDenied,
    /// No device of the wanted kind was found.
    DeviceNotFound,
    /// The device delivers a sample format that cannot be mixed down.
    FormatUnsupported,
    /// Any other failure to start or read: nothing to capture with on this
    /// platform, a helper that is missing or could not be launched.
    Unavailable,
}

impl CaptureError {
    /// Whether the user can mend the failure by granting permission.
    pub fn is_permission_denied(&self) -> (denied: bool)
        ensures
            denied == (*self == CaptureError::PermissionDenied),
    {
        match self {
            CaptureError::PermissionDenied => true,
            _ => false,
        }
    }

    /// A sentence for the user.
    pub fn message(&self) -> (text: String)
        ensures
            text@ == match *self {
                CaptureError::PermissionDenied => "Screen Recording permission denied. Please grant permission in System Settings > Privacy & Security > Screen Recording."@,
                CaptureError::DeviceNotFound => "Failed to find audio device for capture"@,
                CaptureError::FormatUnsupported => "Unsupported sample format"@,
                CaptureError::Unavailable => "System audio capture not available"@,
            },
    {
        match self {
            CaptureError::PermissionDenied => "Screen Recording permission denied. Please grant permission in System Settings > Privacy & Security > Screen Recording.".to_owned(),
            CaptureError::DeviceNotFound => "Failed to find audio device for capture".to_owned(),
            CaptureError::FormatUnsupported => "Unsupported sample format".to_owned(),
            CaptureError::Unavailable => "System audio capture not available".to_owned(),
        }
    }
}

} // verus!
