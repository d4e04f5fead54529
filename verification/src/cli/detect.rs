//! The `detect` command: interactive device detection.

use vstd::prelude::*;

use crate::detection::{debug_path, path_debug, BusType, DeviceType, InputDevice};
use crate::text::{decimal, owned, push_decimal, views};

verus! {

/// How detection output is written.
#[derive(Debug, Clone, Copy, PartialEq, Eq, Structural)]
pub enum OutputFormat {
    /// Decide from what the terminal supports.
    Auto,
    /// Plain text without ANSI escapes.
    Plain,
    /// JSON.
    Json,
}

/// The arguments of `detect`.
#[derive(Debug, Clone, Copy, PartialEq, Eq, Structural)]
pub struct DetectArgs {
    /// How long detection runs, in seconds.
    pub timeout: u64,
    pub output: OutputFormat,
    /// Skip detection and go straight to choosing devices.
    pub config_only: bool,
}

impl DetectArgs {
    /// The arguments used when none are given: 300 seconds, automatic output, with detection.
    pub fn defaults() -> (a: Self)
        ensures
            a == (DetectArgs { timeout: 300, output: OutputFormat::Auto, config_only: false }),
    {
        DetectArgs { timeout: 300, output: OutputFormat::Auto, config_only: false }
    }
}

/// How a device type is shown.
pub open spec fn device_type_label(t: DeviceType) -> Seq<char> {
    match t {
        DeviceType::Keyboard => "键盘"@,
        DeviceType::Mouse => "鼠标"@,
        DeviceType::Unknown => "未知"@,
    }
}

/// How a bus type is shown.
pub open spec fn bus_type_label(b: BusType) -> Seq<char> {
    match b {
        BusType::Usb => "USB"@,
        BusType::Bluetooth => "蓝牙"@,
        BusType::Ps2 => "PS2"@,
        BusType::I2c => "I2C"@,
        BusType::Platform => "平台"@,
        BusType::Unknown => "未知"@,
    }
}

pub fn format_device_type(device_type: DeviceType) -> (r: &'static str)
    ensures
        r@ == device_type_label(device_type),
{
    match device_type {
        DeviceType::Keyboard => "键盘",
        DeviceType::Mouse => "鼠标",
        DeviceType::Unknown => "未知",
    }
}

pub fn format_bus_type(bus_type: BusType) -> (r: &'static str)
    ensures
        r@ == bus_type_label(bus_type),
{
    match bus_type {
        BusType::Usb => "USB",
        BusType::Bluetooth => "蓝牙",
        BusType::Ps2 => "PS2",
        BusType::I2c => "I2C",
        BusType::Platform => "平台",
        BusType::Unknown => "未知",
    }
}

/// The lines that show device `i` (counted from 0) of a listing.
pub open spec fn device_entry(i: nat, d: InputDevice) -> Seq<Seq<char>> {
    seq![
        "  ["@ + decimal(i + 1) + "] "@ + d.name@,
        "      路径: "@ + path_debug(d.path@),
        "      类型: "@ + device_type_label(d.device_type) + " | 总线: "@ + bus_type_label(d.bus_type),
        Seq::empty(),
    ]
}

/// The lines that show the first `n` devices of `devs`.
pub open spec fn entries_upto(devs: Seq<InputDevice>, n: nat) -> Seq<Seq<char>>
    decreases n,
{
    if n == 0 {
        Seq::empty()
    } else {
        entries_upto(devs, (n - 1) as nat) + device_entry((n - 1) as nat, devs[n - 1])
    }
}

/// The listing of the scanned devices: a count, then each device numbered from 1 with its
/// path, type and bus, and an empty line after each.
pub open spec fn listing_lines(devs: Seq<InputDevice>) -> Seq<Seq<char>> {
    seq!["检测到 "@ + decimal(devs.len()) + " 个输入设备:\n"@] + entries_upto(devs, devs.len())
}

/// The lines printed to show the scanned devices.
pub fn device_listing(devices: &Vec<InputDevice>) -> (lines: Vec<String>)
    ensures
        views(lines@) == listing_lines(devices@),
{
    let mut lines: Vec<String> = Vec::new();
    let mut head = owned("检测到 ");
    push_decimal(&mut head, devices.len() as u64);
    head.push_str(" 个输入设备:\n");
    lines.push(head);
    let mut i: usize = 0;
    while i < devices.len()
        invariant
            i <= devices.len(),
            views(lines@) == seq!["检测到 "@ + decimal(devices@.len()) + " 个输入设备:\n"@]
                + entries_upto(devices@, i as nat),
        decreases devices.len() - i,
    {
        let d = &devices[i];
        let mut number = owned("  [");
        push_decimal(&mut number, (i + 1) as u64);
        number.push_str("] ");
        number.push_str(d.name.as_str());
        let mut path = owned("      路径: ");
        path.push_str(debug_path(d.path.as_str()).as_str());
        let mut kind = owned("      类型: ");
        kind.push_str(format_device_type(d.device_type));
        kind.push_str(" | 总线: ");
        kind.push_str(format_bus_type(d.bus_type));
        let ghost before = views(lines@);
        lines.push(number);
        lines.push(path);
        lines.push(kind);
        lines.push(String::new());
        assert(views(lines@) =~= before + device_entry(i as nat, devices@[i as int]));
        i = i + 1;
    }
    lines
}

} // verus!
