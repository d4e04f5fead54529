//! Turning the properties udev reports for an input device into device events.

use vstd::prelude::*;

use crate::config::DeviceRules;
use crate::logic::state::{DeviceEvent, DeviceOrigin, DeviceState, DeviceType};
use crate::text::{eq_ignore_ascii_case, eq_ignore_ascii_case_seq, owned, starts_with_seq, str_eq, str_starts_with, views};

verus! {

/// The text of an optional string slice.
pub open spec fn opt_str(o: Option<&str>) -> Option<Seq<char>> {
    match o {
        Some(s) => Some(s@),
        None => None,
    }
}

/// Whether a udev property is set to `1`.
pub open spec fn is_true(value: Option<Seq<char>>) -> bool {
    value == Some("1"@)
}

/// Whether a udev property value is set to `1`.
pub fn prop_is_true(value: Option<&str>) -> (r: bool)
    ensures
        r == is_true(opt_str(value)),
{
    match value {
        Some(v) => {
            proof {
                reveal_strlit("1");
            }
            str_eq(v, "1")
        },
        None => false,
    }
}

/// The device type told by the udev input properties: keyboards first, then mice,
/// touchpads and trackpoints as pointing devices; anything else is no input device.
pub open spec fn device_type_from(
    keyboard: Option<Seq<char>>,
    mouse: Option<Seq<char>>,
    touchpad: Option<Seq<char>>,
    trackpoint: Option<Seq<char>>,
) -> Option<DeviceType> {
    if is_true(keyboard) {
        Some(DeviceType::Keyboard)
    } else if is_true(mouse) || is_true(touchpad) || is_true(trackpoint) {
        Some(DeviceType::Pointing)
    } else {
        None
    }
}

/// A device is a keyboard exactly when its `ID_INPUT_KEYBOARD` is `1`; it is a pointing
/// device exactly when that is not so and any of `ID_INPUT_MOUSE`, `ID_INPUT_TOUCHPAD` and
/// `ID_INPUT_TRACKPOINT` is `1` (a plain mouse among them); with none of the four at `1`
/// it is no input device of either kind.
pub proof fn lemma_device_type_by_properties(
    keyboard: Option<Seq<char>>,
    mouse: Option<Seq<char>>,
    touchpad: Option<Seq<char>>,
    trackpoint: Option<Seq<char>>,
)
    ensures
        device_type_from(keyboard, mouse, touchpad, trackpoint) == Some(DeviceType::Keyboard)
            <==> keyboard == Some("1"@),
        device_type_from(keyboard, mouse, touchpad, trackpoint) == Some(DeviceType::Pointing)
            <==> keyboard != Some("1"@) && (mouse == Some("1"@) || touchpad == Some("1"@)
            || trackpoint == Some("1"@)),
        device_type_from(keyboard, mouse, touchpad, trackpoint) is None <==> keyboard != Some(
            "1"@,
        ) && mouse != Some("1"@) && touchpad != Some("1"@) && trackpoint != Some("1"@),
{
}

/// The device type told by the values of `ID_INPUT_KEYBOARD`, `ID_INPUT_MOUSE`,
/// `ID_INPUT_TOUCHPAD` and `ID_INPUT_TRACKPOINT`.
pub fn detect_device_type(
    keyboard: Option<&str>,
    mouse: Option<&str>,
    touchpad: Option<&str>,
    trackpoint: Option<&str>,
) -> (t: Option<DeviceType>)
    ensures
        t == device_type_from(
            opt_str(keyboard),
            opt_str(mouse),
            opt_str(touchpad),
            opt_str(trackpoint),
        ),
        t == Some(DeviceType::Keyboard) <==> opt_str(keyboard) == Some("1"@),
        t == Some(DeviceType::Pointing) <==> opt_str(keyboard) != Some("1"@) && (opt_str(mouse)
            == Some("1"@) || opt_str(touchpad) == Some("1"@) || opt_str(trackpoint) == Some(
            "1"@,
        )),
        t is None <==> opt_str(keyboard) != Some("1"@) && opt_str(mouse) != Some("1"@) && opt_str(
            touchpad,
        ) != Some("1"@) && opt_str(trackpoint) != Some("1"@),
{
    proof {
        lemma_device_type_by_properties(
            opt_str(keyboard),
            opt_str(mouse),
            opt_str(touchpad),
            opt_str(trackpoint),
        );
    }
    if prop_is_true(keyboard) {
        return Some(DeviceType::Keyboard);
    }
    if prop_is_true(mouse) || prop_is_true(touchpad) || prop_is_true(trackpoint) {
        return Some(DeviceType::Pointing);
    }
    None
}

/// Whether a bus value is in a bus list, ignoring ASCII case.
pub open spec fn bus_listed(value: Option<Seq<char>>, list: Seq<Seq<char>>) -> bool {
    match value {
        None => false,
        Some(v) => exists|i: int| 0 <= i < list.len() && eq_ignore_ascii_case_seq(list[i], v),
    }
}

/// Whether the `ID_BUS` value names one of the buses of `list`, ignoring ASCII case.
pub fn matches_bus(value: Option<&str>, list: &Vec<String>) -> (r: bool)
    ensures
        r == bus_listed(opt_str(value), views(list@)),
{
    let v = match value {
        Some(v) => v,
        None => {
            return false;
        },
    };
    assert(opt_str(value) == Some(v@));
    let mut i: usize = 0;
    while i < list.len()
        invariant
            i <= list.len(),
            opt_str(value) == Some(v@),
            forall|j: int| 0 <= j < i ==> !eq_ignore_ascii_case_seq(views(list@)[j], v@),
        decreases list.len() - i,
    {
        if eq_ignore_ascii_case(list[i].as_str(), v) {
            assert(eq_ignore_ascii_case_seq(views(list@)[i as int], v@));
            assert(exists|j: int|
                0 <= j < views(list@).len() && eq_ignore_ascii_case_seq(views(list@)[j], v@));
            return true;
        }
        i = i + 1;
    }
    false
}

/// Where a device on the bus `bus` sits: buses listed as internal win over those listed
/// as external, and an unlisted or unknown bus counts as internal.
pub open spec fn origin_from(bus: Option<Seq<char>>, rules: DeviceRules) -> DeviceOrigin {
    if bus_listed(bus, views(rules.internal_buses@)) {
        DeviceOrigin::Internal
    } else if bus_listed(bus, views(rules.external_buses@)) {
        DeviceOrigin::External
    } else {
        DeviceOrigin::Internal
    }
}

/// Where a device sits, from its `ID_BUS` value.
pub fn detect_device_origin(bus: Option<&str>, rules: &DeviceRules) -> (o: DeviceOrigin)
    ensures
        o == origin_from(opt_str(bus), *rules),
{
    if matches_bus(bus, &rules.internal_buses) {
        return DeviceOrigin::Internal;
    }
    if matches_bus(bus, &rules.external_buses) {
        return DeviceOrigin::External;
    }
    DeviceOrigin::Internal
}

/// The event for a device with the given type, origin, device node and `NAME`: only
/// evdev nodes of keyboards and pointing devices make one; a missing name reads
/// `unknown`.
pub open spec fn event_from(
    device_type: Option<DeviceType>,
    origin: DeviceOrigin,
    devnode: Option<Seq<char>>,
    name: Option<Seq<char>>,
    state: DeviceState,
    r: Option<DeviceEvent>,
) -> bool {
    match (device_type, devnode) {
        (Some(t), Some(node)) if starts_with_seq(node, "/dev/input/event"@) => r matches Some(ev)
            && ev.id@ == node && ev.name@ == (match name {
            Some(n) => n,
            None => "unknown"@,
        }) && ev.device_type == t && ev.origin == origin && ev.state == state,
        _ => r is None,
    }
}

/// Makes the device event for a udev device, given its type, origin, device node and
/// `NAME` property.
pub fn device_event_from(
    device_type: Option<DeviceType>,
    origin: DeviceOrigin,
    devnode: Option<&str>,
    name: Option<&str>,
    state: DeviceState,
) -> (r: Option<DeviceEvent>)
    ensures
        event_from(device_type, origin, opt_str(devnode), opt_str(name), state, r),
{
    let device_type = match device_type {
        Some(t) => t,
        None => {
            return None;
        },
    };
    let node = match devnode {
        Some(n) => n,
        None => {
            return None;
        },
    };
    if !str_starts_with(node, "/dev/input/event") {
        return None;
    }
    let name = match name {
        Some(n) => owned(n),
        None => owned("unknown"),
    };
    Some(DeviceEvent { id: owned(node), name, device_type, origin, state })
}

/// Whether an event introduces a built-in device, whose device file the disabler must
/// know.
pub fn registers_internal(event: &DeviceEvent) -> (r: bool)
    ensures
        r == (event.origin == DeviceOrigin::Internal && event.state == DeviceState::Connected),
{
    event.origin == DeviceOrigin::Internal && event.state == DeviceState::Connected
}

} // verus!
