//! Finding the keyboards and mice among the evdev devices.

use vstd::prelude::*;

use crate::detection::{path_exists, BusType, DeviceType, InputDevice};
use crate::platform::linux::{device_name, event_support, open_device, OpenedDevice};
use crate::text::{contains_seq, decimal, lowercase, owned, push_decimal, str_contains, to_lowercase};

verus! {

/// The device type told by the event types a device reports and its lowercased name:
/// keys alone make a keyboard, relative motion alone a mouse, and when it reports both
/// the name decides.
pub open spec fn device_type_of(key: bool, relative: bool, lower_name: Seq<char>) -> DeviceType {
    if key && !relative {
        DeviceType::Keyboard
    } else if !key && relative {
        DeviceType::Mouse
    } else if key && relative {
        if contains_seq(lower_name, "keyboard"@) || contains_seq(lower_name, "key"@) {
            DeviceType::Keyboard
        } else if contains_seq(lower_name, "mouse"@) || contains_seq(lower_name, "pointer"@) {
            DeviceType::Mouse
        } else {
            DeviceType::Unknown
        }
    } else {
        DeviceType::Unknown
    }
}

/// The bus told by a lowercased device name.
pub open spec fn bus_type_of(lower_name: Seq<char>) -> BusType {
    if contains_seq(lower_name, "usb"@) {
        BusType::Usb
    } else if contains_seq(lower_name, "bluetooth"@) {
        BusType::Bluetooth
    } else if contains_seq(lower_name, "ps/2"@) || contains_seq(lower_name, "i8042"@)
        || contains_seq(lower_name, "serio"@) {
        BusType::Ps2
    } else if contains_seq(lower_name, "i2c"@) {
        BusType::I2c
    } else if contains_seq(lower_name, "platform"@) {
        BusType::Platform
    } else {
        BusType::Unknown
    }
}

/// The device type told by the event types a device reports and its lowercased name.
pub fn classify_device_type(key: bool, relative: bool, lower_name: &str) -> (t: DeviceType)
    ensures
        t == device_type_of(key, relative, lower_name@),
{
    match (key, relative) {
        (true, false) => DeviceType::Keyboard,
        (false, true) => DeviceType::Mouse,
        (true, true) => {
            if str_contains(lower_name, "keyboard") || str_contains(lower_name, "key") {
                DeviceType::Keyboard
            } else if str_contains(lower_name, "mouse") || str_contains(lower_name, "pointer") {
                DeviceType::Mouse
            } else {
                DeviceType::Unknown
            }
        },
        _ => DeviceType::Unknown,
    }
}

/// The bus told by a lowercased device name.
pub fn classify_bus_type(lower_name: &str) -> (b: BusType)
    ensures
        b == bus_type_of(lower_name@),
{
    if str_contains(lower_name, "usb") {
        BusType::Usb
    } else if str_contains(lower_name, "bluetooth") {
        BusType::Bluetooth
    } else if str_contains(lower_name, "ps/2") || str_contains(lower_name, "i8042")
        || str_contains(lower_name, "serio") {
        BusType::Ps2
    } else if str_contains(lower_name, "i2c") {
        BusType::I2c
    } else if str_contains(lower_name, "platform") {
        BusType::Platform
    } else {
        BusType::Unknown
    }
}

/// Whether devices on this bus are external and so can be disabled.
pub open spec fn bus_supports_disable(b: BusType) -> bool {
    b == BusType::Usb || b == BusType::Bluetooth
}

/// The path of the evdev device file numbered `i`.
pub open spec fn event_path(i: nat) -> Seq<char> {
    "/dev/input/event"@ + decimal(i)
}

/// The device file path `/dev/input/event<i>`.
pub fn event_device_path(i: u64) -> (p: String)
    ensures
        p@ == event_path(i as nat),
{
    let mut p = owned("/dev/input/event");
    push_decimal(&mut p, i);
    p
}

/// The name a device reports, lowercased; a device without a name counts as having an
/// empty one.
fn lower_name_of(device: &OpenedDevice) -> (r: String)
    ensures
        exists|n: Seq<char>| r@ == lowercase(n),
{
    let name = match device_name(device) {
        Some(n) => n,
        None => owned(""),
    };
    to_lowercase(name.as_str())
}

/// The type of an evdev device, from the event types it reports and its name.
pub fn get_device_type(device: &OpenedDevice) -> (t: DeviceType)
    ensures
        exists|key: bool, relative: bool, n: Seq<char>| t == device_type_of(key, relative, lowercase(n)),
{
    let support = event_support(device);
    let lower = lower_name_of(device);
    classify_device_type(support.key, support.relative, lower.as_str())
}

/// The bus of an evdev device, from its name.
pub fn get_bus_type(device: &OpenedDevice) -> (b: BusType)
    ensures
        exists|n: Seq<char>| b == bus_type_of(lowercase(n)),
{
    let lower = lower_name_of(device);
    classify_bus_type(lower.as_str())
}

/// The first of `/dev/input/event0` to `/dev/input/event20` that exists, or
/// `/dev/input/event0` when none does. The device name is not consulted.
pub fn extract_device_path(name: &str) -> (p: String)
    ensures
        exists|i: nat| i <= 20 && p@ == event_path(i),
{
    let mut i: u64 = 0;
    while i <= 20
        invariant
            i <= 21,
        decreases 21 - i,
    {
        let path = event_device_path(i);
        if path_exists(path.as_str()) {
            return path;
        }
        i = i + 1;
    }
    event_device_path(0)
}

/// What an opened device node reports: its name, if any, and whether it reports key and
/// relative-motion events.
#[derive(Debug, Clone)]
pub struct NodeReport {
    pub name: Option<String>,
    pub key: bool,
    pub relative: bool,
}

/// A node report with its name as a character sequence.
pub ghost struct NodeReportView {
    pub name: Option<Seq<char>>,
    pub key: bool,
    pub relative: bool,
}

impl View for NodeReport {
    type V = NodeReportView;

    open spec fn view(&self) -> NodeReportView {
        NodeReportView {
            name: match self.name {
                Some(n) => Some(n@),
                None => None,
            },
            key: self.key,
            relative: self.relative,
        }
    }
}

/// The reported name lowercased; no name counts as the empty one.
pub open spec fn report_lower_name(r: NodeReportView) -> Seq<char> {
    lowercase(
        match r.name {
            Some(n) => n,
            None => ""@,
        },
    )
}

/// The type a report tells.
pub open spec fn report_type(r: NodeReportView) -> DeviceType {
    device_type_of(r.key, r.relative, report_lower_name(r))
}

/// Whether a report tells a keyboard or a mouse, the devices the scan describes.
pub open spec fn reports_device(r: NodeReportView) -> bool {
    report_type(r) == DeviceType::Keyboard || report_type(r) == DeviceType::Mouse
}

/// `d` is the description of the device at `path` that gave the report `r`: its name
/// (`Unknown` when it reports none), that path, the type and bus its report tells,
/// enabled, without ids, disableable exactly when its bus is external.
pub open spec fn describes(d: InputDevice, r: NodeReportView, path: Seq<char>) -> bool {
    &&& d.name@ == (match r.name {
        Some(n) => n,
        None => "Unknown"@,
    })
    &&& d.path@ == path
    &&& d.device_type == report_type(r)
    &&& d.bus_type == bus_type_of(report_lower_name(r))
    &&& d.vendor_id is None
    &&& d.product_id is None
    &&& d.phys is None
    &&& d.enabled
    &&& d.supports_disable == bus_supports_disable(d.bus_type)
}

/// Describes the device at `path` from its report, or gives `None` when the report
/// tells neither a keyboard nor a mouse.
pub fn describe_device(report: &NodeReport, path: &str) -> (r: Option<InputDevice>)
    ensures
        r is Some <==> reports_device(report@),
        r matches Some(d) ==> describes(d, report@, path@),
{
    let lower = match &report.name {
        Some(n) => to_lowercase(n.as_str()),
        None => {
            proof {
                reveal_strlit("");
            }
            to_lowercase("")
        },
    };
    let device_type = classify_device_type(report.key, report.relative, lower.as_str());
    if !(device_type == DeviceType::Keyboard || device_type == DeviceType::Mouse) {
        return None;
    }
    let name = match &report.name {
        Some(n) => owned(n.as_str()),
        None => owned("Unknown"),
    };
    let bus_type = classify_bus_type(lower.as_str());
    Some(scanned_entry(name, owned(path), device_type, bus_type))
}

/// What the opened device reports, read through the name and event-type wrappers.
/// Nothing is stated: the values come from the device.
fn node_report(device: &OpenedDevice) -> NodeReport {
    let support = event_support(device);
    NodeReport { name: device_name(device), key: support.key, relative: support.relative }
}

/// Describes an opened evdev device, with the path it was opened at, or gives `None`
/// when it is neither a keyboard nor a mouse.
pub fn parse_evdev_device(device: &OpenedDevice) -> (r: Option<InputDevice>)
    ensures
        r matches Some(d) ==> exists|rep: NodeReportView| describes(d, rep, device.path_view()),
{
    let report = node_report(device);
    describe_device(&report, device.path())
}

/// The description the scan gives of a keyboard or mouse with this name, path, type and
/// bus: enabled, without vendor, product or physical ids, and disableable exactly when
/// its bus is external.
pub fn scanned_entry(name: String, path: String, device_type: DeviceType, bus_type: BusType) -> (d:
    InputDevice)
    ensures
        d.name == name,
        d.path == path,
        d.device_type == device_type,
        d.bus_type == bus_type,
        d.vendor_id is None,
        d.product_id is None,
        d.phys is None,
        d.enabled,
        d.supports_disable == bus_supports_disable(bus_type),
{
    let supports_disable = bus_type == BusType::Usb || bus_type == BusType::Bluetooth;
    InputDevice {
        name,
        path,
        device_type,
        bus_type,
        vendor_id: None,
        product_id: None,
        phys: None,
        enabled: true,
        supports_disable,
    }
}

/// `devices` describe, in order, the keyboards and mice told by the node reports
/// `reports`, each with the path of its own node: report `i` comes from
/// `/dev/input/event<i>`, and is `None` when that node is missing or could not be opened.
pub open spec fn scan_of(reports: Seq<Option<NodeReportView>>, devices: Seq<InputDevice>) -> bool
    decreases reports.len(),
{
    if reports.len() == 0 {
        devices.len() == 0
    } else {
        let n = reports.len() - 1;
        if reports[n] is Some && reports_device(reports[n]->0) {
            &&& devices.len() > 0
            &&& describes(devices.last(), reports[n]->0, event_path(n as nat))
            &&& scan_of(reports.drop_last(), devices.drop_last())
        } else {
            scan_of(reports.drop_last(), devices)
        }
    }
}

/// `devices` are what a scan of the 21 nodes `/dev/input/event0` to `event20` gives when
/// the nodes report `reports`.
pub open spec fn full_scan(reports: Seq<Option<NodeReportView>>, devices: Seq<InputDevice>) -> bool {
    reports.len() == 21 && scan_of(reports, devices)
}

/// `devices` are what a scan of the nodes gives for some reports of theirs.
pub open spec fn is_scan(devices: Seq<InputDevice>) -> bool {
    exists|reports: Seq<Option<NodeReportView>>| #[trigger] full_scan(reports, devices)
}

/// The reports of a list, each by its view.
pub open spec fn report_views(v: Seq<Option<NodeReport>>) -> Seq<Option<NodeReportView>> {
    v.map_values(
        |o: Option<NodeReport>|
            match o {
                Some(r) => Some(r@),
                None => None,
            },
    )
}

/// The devices told by the reports of the nodes `/dev/input/event0` onwards (`None` for a
/// node that is missing or could not be opened): each keyboard and mouse, in node order,
/// with the path of its node.
pub fn devices_from_reports(reports: &Vec<Option<NodeReport>>) -> (devices: Vec<InputDevice>)
    ensures
        scan_of(report_views(reports@), devices@),
{
    let ghost rv = report_views(reports@);
    let mut devices: Vec<InputDevice> = Vec::new();
    let mut i: usize = 0;
    assert(rv.subrange(0, 0) =~= Seq::<Option<NodeReportView>>::empty());
    while i < reports.len()
        invariant
            i <= reports.len(),
            rv == report_views(reports@),
            scan_of(rv.subrange(0, i as int), devices@),
        decreases reports.len() - i,
    {
        let ghost pre = rv.subrange(0, i as int);
        let ghost now = rv.subrange(0, i + 1);
        assert(now.drop_last() =~= pre);
        assert(now.last() == rv[i as int]);
        match &reports[i] {
            None => {
                assert(rv[i as int] is None);
            },
            Some(report) => {
                assert(rv[i as int] == Some(report@));
                let path = event_device_path(i as u64);
                let ghost before = devices@;
                match describe_device(report, path.as_str()) {
                    None => {},
                    Some(d) => {
                        devices.push(d);
                        assert(devices@.drop_last() =~= before);
                    },
                }
            },
        }
        i = i + 1;
    }
    assert(rv.subrange(0, reports.len() as int) =~= rv);
    devices
}

/// Looks at `/dev/input/event0` to `/dev/input/event20` and describes each keyboard and
/// mouse that can be opened, with the path of its own node. Files that are missing or
/// cannot be opened are skipped.
pub fn scan_input_devices() -> (r: anyhow::Result<Vec<InputDevice>>)
    ensures
        r matches Ok(v) && is_scan(v@),
{
    let mut reports: Vec<Option<NodeReport>> = Vec::new();
    let mut i: u64 = 0;
    while i <= 20
        invariant
            i <= 21,
            reports.len() == i,
        decreases 21 - i,
    {
        let path = event_device_path(i);
        let mut report: Option<NodeReport> = None;
        if path_exists(path.as_str()) {
            match open_device(path.as_str()) {
                Ok(device) => {
                    report = Some(node_report(&device));
                },
                Err(_) => {},
            }
        }
        reports.push(report);
        i = i + 1;
    }
    let devices = devices_from_reports(&reports);
    assert(report_views(reports@).len() == 21);
    assert(full_scan(report_views(reports@), devices@));
    assert(is_scan(devices@));
    Ok(devices)
}

} // verus!
