//! Linux: input devices under /dev/input, found through evdev and udev.

use vstd::prelude::*;

pub mod evdev;
pub mod grab;
pub mod input;
pub mod udev;

verus! {

/// An evdev input device opened for reading.
#[verifier::external_type_specification]
#[verifier::external_body]
pub struct ExEvdevDevice(::evdev::Device);

/// An I/O error.
#[verifier::external_type_specification]
#[verifier::external_body]
pub struct ExIoError(std::io::Error);

/// An evdev device file opened for reading, with the path it was opened at.
pub struct OpenedDevice {
    path: String,
    device: ::evdev::Device,
}

impl OpenedDevice {
    /// The path the device was opened at.
    pub closed spec fn path_view(&self) -> Seq<char> {
        self.path@
    }

    /// The path the device was opened at.
    pub fn path(&self) -> (r: &str)
        ensures
            r@ == self.path_view(),
    {
        self.path.as_str()
    }
}

/// Calls `evdev::Device::open`, which opens the device file at `path`; the opened device
/// keeps that path. Nothing is stated of whether it opens: that depends on the machine.
#[verifier::external_body]
pub fn open_device(path: &str) -> (r: std::io::Result<OpenedDevice>)
    ensures
        r matches Ok(d) ==> d.path_view() == path@,
{
    match ::evdev::Device::open(path) {
        Ok(device) => Ok(OpenedDevice { path: path.to_string(), device }),
        Err(e) => Err(e),
    }
}

/// Which event types a device reports: keys, and relative motion.
#[derive(Debug, Clone, Copy, PartialEq, Eq, Structural)]
pub struct EventSupport {
    pub key: bool,
    pub relative: bool,
}

/// Calls `evdev::Device::supported_events` and reads whether the key and relative-motion
/// event types are among them. Nothing is stated: the answer comes from the device.
#[verifier::external_body]
pub fn event_support(d: &OpenedDevice) -> EventSupport {
    let events = d.device.supported_events();
    EventSupport {
        key: events.contains(::evdev::EventType::KEY),
        relative: events.contains(::evdev::EventType::RELATIVE),
    }
}

/// Calls `evdev::Device::name`, the name the device reports, if any. Nothing is stated:
/// the answer comes from the device.
#[verifier::external_body]
pub fn device_name(d: &OpenedDevice) -> Option<String> {
    match d.device.name() {
        Some(n) => Some(n.to_string()),
        None => None,
    }
}

} // verus!
