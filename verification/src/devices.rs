//! Picking a device by its name.
//!
//! A device is known by its name, which is also what is stored when the
//! user selects one. The caller lists the devices; which of them is used
//! is decided here, over the list of their names.

use crate::error::CaptureError;
use crate::text::contains;
use crate::text::text_contains;
use vstd::prelude::*;

verus! {

/// The name is that of a virtual loopback device.
pub open spec fn loopback_name(name: Seq<char>) -> bool {
    text_contains(name, "BlackHole"@) || text_contains(name, "blackhole"@)
}

/// The name is that of an output through which a loopback device hears
/// what is played: the loopback device itself, or a multi-output device.
pub open spec fn loopback_route(name: Seq<char>) -> bool {
    loopback_name(name) || text_contains(name, "Multi-Output"@)
}

/// Whether `name` is the name of a virtual loopback device.
pub fn is_loopback_name(name: &str) -> (yes: bool)
    ensures
        yes == loopback_name(name@),
{
    contains(name, "BlackHole") || contains(name, "blackhole")
}

/// Whether audio sent to the output called `name` reaches a loopback
/// device. If the default output does not, capture will hear silence
/// until the user changes the routing.
pub fn routes_to_loopback(name: &str) -> (yes: bool)
    ensures
        yes == loopback_route(name@),
{
    is_loopback_name(name) || contains(name, "Multi-Output")
}

/// The first of the input devices `names` that is a loopback device.
pub fn find_blackhole_device(names: &Vec<String>) -> (found: Option<usize>)
    ensures
        match found {
            Some(at) => {
                &&& at < names@.len()
                &&& loopback_name(names@[at as int]@)
                &&& forall|i: int| 0 <= i < at ==> !loopback_name((#[trigger] names@[i])@)
            },
            None => forall|i: int|
                0 <= i < names@.len() ==> !loopback_name((#[trigger] names@[i])@),
        },
{
    let mut i: usize = 0;
    while i < names.len()
        invariant
            i <= names@.len(),
            forall|j: int| 0 <= j < i ==> !loopback_name((#[trigger] names@[j])@),
        decreases names@.len() - i,
    {
        if is_loopback_name(names[i].as_str()) {
            return Some(i);
        }
        i = i + 1;
    }
    None
}

/// The name of the microphone that the settings ask for: the one stored
/// for clamshell mode while the lid is closed and one is stored for it,
/// else the one selected, if any.
pub open spec fn wanted_microphone(
    in_clamshell: bool,
    clamshell_microphone: Option<String>,
    selected_microphone: Option<String>,
) -> Option<String> {
    if in_clamshell && clamshell_microphone is Some {
        clamshell_microphone
    } else {
        selected_microphone
    }
}

/// The first position of `names` with the name `name`.
pub open spec fn first_named(names: Seq<String>, name: Seq<char>, at: int) -> bool {
    &&& 0 <= at < names.len()
    &&& names[at]@ == name
    &&& forall|i: int| 0 <= i < at ==> (#[trigger] names[i])@ != name
}

/// The input device to open, as a position in `names`, or `None` for the
/// default device of the operating system: no microphone is asked for, or
/// the one asked for is not among the devices.
#[verifier::loop_isolation(false)]
pub fn get_effective_microphone_device(
    in_clamshell: bool,
    clamshell_microphone: &Option<String>,
    selected_microphone: &Option<String>,
    names: &Vec<String>,
) -> (device: Option<usize>)
    ensures
        match wanted_microphone(in_clamshell, *clamshell_microphone, *selected_microphone) {
            Some(name) => match device {
                Some(at) => first_named(names@, name@, at as int),
                None => forall|i: int| 0 <= i < names@.len() ==> (#[trigger] names@[i])@ != name@,
            },
            None => device is None,
        },
{
    let wanted = match (in_clamshell, clamshell_microphone) {
        (true, Some(name)) => Some(name),
        _ => match selected_microphone {
            Some(name) => Some(name),
            None => None,
        },
    };
    match wanted {
        None => None,
        Some(name) => {
            let mut i: usize = 0;
            while i < names.len()
                invariant
                    i <= names@.len(),
                    forall|j: int| 0 <= j < i ==> (#[trigger] names@[j])@ != name@,
                decreases names@.len() - i,
            {
                if names[i] == *name {
                    return Some(i);
                }
                i = i + 1;
            }
            None
        },
    }
}

/// A sample format as a device reports it.
#[derive(Clone, Copy, Debug, PartialEq, Eq, Structural)]
pub enum SampleFormat {
    /// 32-bit floating point.
    F32,
    /// 16-bit signed integers.
    I16,
    /// 32-bit signed integers.
    I32,
    /// Any other format.
    Other,
}

/// Whether samples of this format can be converted and mixed down. A
/// device with another format cannot be captured from.
pub fn is_supported_format(format: SampleFormat) -> (supported: bool)
    ensures
        supported == (format != SampleFormat::Other),
{
    match format {
        SampleFormat::F32 | SampleFormat::I16 | SampleFormat::I32 => true,
        SampleFormat::Other => false,
    }
}

/// Accepts a format that can be captured from and refuses any other
/// with `FormatUnsupported`.
pub fn check_format(format: SampleFormat) -> (checked: Result<(), CaptureError>)
    ensures
        checked == if format == SampleFormat::Other {
            Err::<(), CaptureError>(CaptureError::FormatUnsupported)
        } else {
            Ok::<(), CaptureError>(())
        },
{
    if is_supported_format(format) {
        Ok(())
    } else {
        Err(CaptureError::FormatUnsupported)
    }
}

} // verus!
