//! Interactive detection of input devices: what a device is, and how the user picks
//! the ones to disable.

use vstd::prelude::*;

use crate::text::{concat, owned};
use crate::path::{paths_equal, same_path};

pub mod clock;
pub mod error;
pub mod monitor;
pub mod selector_impl;
pub mod session;
pub mod session_impl;



pub use error::DetectionError;

verus! {

/// An input device found on the machine. `path` is the device file; two devices are
/// equal when their fields are, their paths compared as `Path` compares them.
#[derive(Debug, Clone)]
pub struct InputDevice {
    pub name: String,
    pub path: String,
    pub device_type: DeviceType,
    pub bus_type: BusType,
    pub vendor_id: Option<u16>,
    pub product_id: Option<u16>,
    pub phys: Option<String>,
    pub enabled: bool,
    pub supports_disable: bool,
}

/// Whether two optional texts are both absent or both present and equal.
pub open spec fn same_text(a: Option<String>, b: Option<String>) -> bool {
    match (a, b) {
        (None, None) => true,
        (Some(x), Some(y)) => x@ == y@,
        _ => false,
    }
}

/// Whether two optional texts are both absent or both present and equal.
pub fn texts_equal(a: &Option<String>, b: &Option<String>) -> (r: bool)
    ensures
        r == same_text(*a, *b),
{
    match (a, b) {
        (None, None) => true,
        (Some(x), Some(y)) => crate::text::str_eq(x.as_str(), y.as_str()),
        _ => false,
    }
}

/// Whether two devices are equal: the same fields, the paths compared by components.
pub open spec fn same_device(a: InputDevice, b: InputDevice) -> bool {
    &&& a.name@ == b.name@
    &&& same_path(a.path@, b.path@)
    &&& a.device_type == b.device_type
    &&& a.bus_type == b.bus_type
    &&& a.vendor_id == b.vendor_id
    &&& a.product_id == b.product_id
    &&& same_text(a.phys, b.phys)
    &&& a.enabled == b.enabled
    &&& a.supports_disable == b.supports_disable
}

impl PartialEq for InputDevice {
    fn eq(&self, other: &Self) -> (r: bool) {
        crate::text::str_eq(self.name.as_str(), other.name.as_str()) && paths_equal(
            self.path.as_str(),
            other.path.as_str(),
        ) && self.device_type == other.device_type && self.bus_type == other.bus_type
            && self.vendor_id == other.vendor_id && self.product_id == other.product_id
            && texts_equal(&self.phys, &other.phys) && self.enabled == other.enabled
            && self.supports_disable == other.supports_disable
    }
}

impl vstd::std_specs::cmp::PartialEqSpecImpl for InputDevice {
    open spec fn obeys_eq_spec() -> bool {
        true
    }

    open spec fn eq_spec(&self, other: &InputDevice) -> bool {
        same_device(*self, *other)
    }
}

impl Eq for InputDevice {

}

#[derive(Debug, Clone, Copy, PartialEq, Eq, Structural)]
pub enum DeviceType {
    Keyboard,
    Mouse,
    Unknown,
}

#[derive(Debug, Clone, Copy, PartialEq, Eq, Structural)]
pub enum BusType {
    Usb,
    Bluetooth,
    Ps2,
    I2c,
    Platform,
    Unknown,
}

/// Whether a Unix path is absolute: it starts at the root.
pub open spec fn is_absolute_path(p: Seq<char>) -> bool {
    p.len() > 0 && p[0] == '/'
}

/// How `Path`'s `Debug` prints a path.
pub uninterp spec fn path_debug(p: Seq<char>) -> Seq<char>;

/// Calls `format!("{:?}", Path::new(p))`: the path quoted and escaped as `Debug` prints
/// it. The contract names the text, a function of the path alone.
#[verifier::external_body]
pub fn debug_path(p: &str) -> (r: String)
    ensures
        r@ == path_debug(p@),
{
    format!("{:?}", std::path::Path::new(p))
}

/// Calls `Path::exists`, which asks the file system whether something is at `p`.
/// Nothing is stated of the answer: it depends on the disk.
#[verifier::external_body]
pub fn path_exists(p: &str) -> bool {
    std::path::Path::new(p).exists()
}

/// Whether a Unix path is absolute, as `Path::is_absolute` answers on Unix.
pub fn is_absolute(p: &str) -> (r: bool)
    ensures
        r == is_absolute_path(p@),
{
    p.unicode_len() > 0 && p.get_char(0) == '/'
}

/// What `InputDevice::validate` gives for device `d` when the file system answers
/// `exists` for its path.
pub open spec fn validation_outcome(d: InputDevice, exists: bool) -> Result<
    (),
    error::DetectionErrorView,
> {
    if d.name@.len() == 0 {
        Err(error::DetectionErrorView::ConfigValidationError("设备名称不能为空"@))
    } else if !is_absolute_path(d.path@) {
        Err(
            error::DetectionErrorView::ConfigValidationError(
                "设备路径必须是绝对路径: "@ + path_debug(d.path@),
            ),
        )
    } else if !exists {
        Err(
            error::DetectionErrorView::DeviceAccessFailed(
                "设备文件不存在: "@ + path_debug(d.path@),
            ),
        )
    } else if d.device_type == DeviceType::Unknown {
        Err(error::DetectionErrorView::ConfigValidationError("设备类型未知"@))
    } else {
        Ok(())
    }
}

/// A result with its error taken by its view.
pub open spec fn result_view(r: Result<(), DetectionError>) -> Result<(), error::DetectionErrorView> {
    match r {
        Ok(()) => Ok(()),
        Err(e) => Err(e@),
    }
}

/// A copy of a device description.
fn copy_device(d: &InputDevice) -> (r: InputDevice)
    ensures
        r == *d,
{
    let phys = match &d.phys {
        Some(p) => Some(p.clone()),
        None => None,
    };
    InputDevice {
        name: d.name.clone(),
        path: d.path.clone(),
        device_type: d.device_type,
        bus_type: d.bus_type,
        vendor_id: d.vendor_id,
        product_id: d.product_id,
        phys,
        enabled: d.enabled,
        supports_disable: d.supports_disable,
    }
}

/// A copy of a list of device descriptions.
pub fn copy_devices(v: &Vec<InputDevice>) -> (r: Vec<InputDevice>)
    ensures
        r@ == v@,
{
    let mut r: Vec<InputDevice> = Vec::new();
    let mut i: usize = 0;
    while i < v.len()
        invariant
            i <= v.len(),
            r@ == v@.subrange(0, i as int),
        decreases v.len() - i,
    {
        r.push(copy_device(&v[i]));
        i = i + 1;
        assert(r@ =~= v@.subrange(0, i as int));
    }
    assert(v@.subrange(0, v.len() as int) =~= v@);
    r
}

impl InputDevice {
    /// Checks a device: it has a name, an absolute path at which a file exists, and a
    /// known type. The first check that fails gives the error.
    pub fn validate(&self) -> (r: Result<(), DetectionError>)
        ensures
            result_view(r) == validation_outcome(*self, true) || result_view(r)
                == validation_outcome(*self, false),
    {
        if self.name.unicode_len() == 0 || !is_absolute(self.path.as_str()) {
            return self.validate_with(false);
        }
        let exists = path_exists(self.path.as_str());
        self.validate_with(exists)
    }

    /// The checks of `validate`, with `exists` standing for the file system's answer
    /// about the device path.
    pub fn validate_with(&self, exists: bool) -> (r: Result<(), DetectionError>)
        ensures
            result_view(r) == validation_outcome(*self, exists),
    {
        if self.name.unicode_len() == 0 {
            return Err(DetectionError::ConfigValidationError(owned("设备名称不能为空")));
        }
        if !is_absolute(self.path.as_str()) {
            let shown = debug_path(self.path.as_str());
            return Err(
                DetectionError::ConfigValidationError(
                    concat("设备路径必须是绝对路径: ", shown.as_str()),
                ),
            );
        }
        if !exists {
            let shown = debug_path(self.path.as_str());
            return Err(
                DetectionError::DeviceAccessFailed(concat("设备文件不存在: ", shown.as_str())),
            );
        }
        if self.device_type == DeviceType::Unknown {
            return Err(DetectionError::ConfigValidationError(owned("设备类型未知")));
        }
        Ok(())
    }
}

} // verus!
