//! Grabs on evdev device files: a held grab comes only from a grab that succeeded.

use vstd::prelude::*;

use crate::platform::linux::OpenedDevice;

verus! {

/// An evdev device file on which this process holds a grab, with the path it was opened
/// at. Only a grab that succeeded gives one.
pub struct HeldDevice {
    path: String,
    device: ::evdev::Device,
}

impl HeldDevice {
    /// The path the device was opened at.
    pub closed spec fn path_view(&self) -> Seq<char> {
        self.path@
    }

    /// The path the device was opened at.
    pub fn path(&self) -> (r: &str)
        ensures
            r@ == self.path_view(),
    {
        self.path.as_str()
    }
}

/// Calls `evdev::Device::grab` on the opened device, which takes it for this process
/// alone; when the grab succeeds the device is given back as held, with its path. Nothing
/// is stated of whether it succeeds: that depends on the machine.
#[verifier::external_body]
pub fn grab_device(d: OpenedDevice) -> (r: std::io::Result<HeldDevice>)
    ensures
        r matches Ok(h) ==> h.path_view() == d.path_view(),
{
    let mut device = d.device;
    match device.grab() {
        Ok(()) => Ok(HeldDevice { path: d.path, device }),
        Err(e) => Err(e),
    }
}

/// Calls `evdev::Device::ungrab`, which gives the device back to the system; the device
/// keeps its path. Nothing is stated of the outcome: it depends on the machine.
#[verifier::external_body]
pub fn ungrab_device(d: &mut HeldDevice) -> (r: std::io::Result<()>)
    ensures
        final(d).path_view() == old(d).path_view(),
{
    d.device.ungrab()
}

} // verus!
