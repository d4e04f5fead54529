use aegis_input::config::config::DeviceRules;
use aegis_input::detection::{BusType, DeviceType as DetectedType};
use aegis_input::logic::state::{DeviceOrigin, DeviceState, DeviceType};
use aegis_input::platform::linux::evdev::{grab_error_is_skippable, ungrab_failure_message, DisableError, EvdevDisabler};
use aegis_input::platform::linux::input::{
    classify_bus_type, classify_device_type, event_device_path, extract_device_path,
    describe_device, devices_from_reports, scan_input_devices, scanned_entry, NodeReport,
};
use aegis_input::platform::linux::udev::{
    detect_device_origin, detect_device_type, device_event_from, matches_bus, prop_is_true,
    registers_internal,
};

#[test]
fn device_types_from_event_support() {
    assert_eq!(classify_device_type(true, false, "anything"), DetectedType::Keyboard);
    assert_eq!(classify_device_type(false, true, "anything"), DetectedType::Mouse);
    assert_eq!(classify_device_type(false, false, "keyboard"), DetectedType::Unknown);
    assert_eq!(classify_device_type(true, true, "usb keyboard"), DetectedType::Keyboard);
    assert_eq!(classify_device_type(true, true, "hotkeys"), DetectedType::Keyboard);
    assert_eq!(classify_device_type(true, true, "optical mouse"), DetectedType::Mouse);
    assert_eq!(classify_device_type(true, true, "trackpointer"), DetectedType::Mouse);
    assert_eq!(classify_device_type(true, true, "touchpad"), DetectedType::Unknown);
}

#[test]
fn bus_types_from_names() {
    assert_eq!(classify_bus_type("logitech usb receiver"), BusType::Usb);
    assert_eq!(classify_bus_type("bluetooth mouse"), BusType::Bluetooth);
    assert_eq!(classify_bus_type("at translated set 2 keyboard (ps/2)"), BusType::Ps2);
    assert_eq!(classify_bus_type("serio raw"), BusType::Ps2);
    assert_eq!(classify_bus_type("elan i2c touchpad"), BusType::I2c);
    assert_eq!(classify_bus_type("platform button"), BusType::Platform);
    assert_eq!(classify_bus_type("mystery"), BusType::Unknown);
    assert_eq!(classify_bus_type("usb over i2c"), BusType::Usb);
}

#[test]
fn evdev_paths_and_scan() {
    assert_eq!(event_device_path(0), "/dev/input/event0");
    assert_eq!(event_device_path(17), "/dev/input/event17");
    let p = extract_device_path("ignored");
    assert!(p.starts_with("/dev/input/event"));
    let devices = scan_input_devices().expect("scan never fails");
    assert!(devices.len() <= 21);
    for d in devices {
        assert!(d.device_type == DetectedType::Keyboard || d.device_type == DetectedType::Mouse);
        assert_eq!(d.supports_disable, d.bus_type == BusType::Usb || d.bus_type == BusType::Bluetooth);
    }
}

#[test]
fn udev_properties() {
    assert!(prop_is_true(Some("1")));
    assert!(!prop_is_true(Some("0")));
    assert!(!prop_is_true(None));
    assert_eq!(detect_device_type(Some("1"), Some("1"), None, None), Some(DeviceType::Keyboard));
    assert_eq!(detect_device_type(None, None, Some("1"), None), Some(DeviceType::Pointing));
    assert_eq!(detect_device_type(None, None, None, Some("1")), Some(DeviceType::Pointing));
    assert_eq!(detect_device_type(Some("0"), None, None, None), None);
}

#[test]
fn origins_follow_the_rules() {
    let rules = DeviceRules::default();
    let list = vec!["usb".to_string(), "bluetooth".to_string()];
    assert!(matches_bus(Some("USB"), &list));
    assert!(!matches_bus(Some("usb3"), &list));
    assert!(!matches_bus(None, &list));
    assert_eq!(detect_device_origin(Some("usb"), &rules), DeviceOrigin::External);
    assert_eq!(detect_device_origin(Some("I8042"), &rules), DeviceOrigin::Internal);
    assert_eq!(detect_device_origin(Some("pci"), &rules), DeviceOrigin::Internal);
    assert_eq!(detect_device_origin(None, &rules), DeviceOrigin::Internal);
    let both = DeviceRules { external_buses: vec!["usb".to_string()], internal_buses: vec!["usb".to_string()] };
    assert_eq!(detect_device_origin(Some("usb"), &both), DeviceOrigin::Internal);
}

#[test]
fn events_from_udev_devices() {
    let e = device_event_from(
        Some(DeviceType::Keyboard),
        DeviceOrigin::External,
        Some("/dev/input/event5"),
        None,
        DeviceState::Connected,
    )
    .expect("an evdev keyboard");
    assert_eq!(e.id, "/dev/input/event5");
    assert_eq!(e.name, "unknown");
    assert!(!registers_internal(&e));
    assert!(device_event_from(None, DeviceOrigin::External, Some("/dev/input/event5"), None, DeviceState::Connected).is_none());
    assert!(device_event_from(Some(DeviceType::Pointing), DeviceOrigin::Internal, Some("/dev/input/mouse0"), Some("m"), DeviceState::Connected).is_none());
    assert!(device_event_from(Some(DeviceType::Pointing), DeviceOrigin::Internal, None, Some("m"), DeviceState::Connected).is_none());
    let internal = device_event_from(Some(DeviceType::Pointing), DeviceOrigin::Internal, Some("/dev/input/event9"), Some("Touchpad"), DeviceState::Connected).unwrap();
    assert_eq!(internal.name, "Touchpad");
    assert!(registers_internal(&internal));
}

#[test]
fn grab_failures_passed_over() {
    assert!(grab_error_is_skippable(true, None));
    assert!(grab_error_is_skippable(false, Some(25)));
    assert!(!grab_error_is_skippable(false, Some(16)));
    assert!(!grab_error_is_skippable(false, None));
}

#[test]
fn disabler_skips_missing_devices() {
    let mut d = EvdevDisabler::new();
    d.register_internal(DeviceType::Keyboard, "/nonexistent/input/event0");
    d.register_internal(DeviceType::Keyboard, "/nonexistent/input/event0");
    assert!(d.disable(DeviceType::Keyboard).is_ok());
    assert!(d.enable(DeviceType::Keyboard).is_ok());
    assert!(d.disable(DeviceType::Pointing).is_ok());
}

#[test]
fn scanned_entries_are_disableable_on_external_buses() {
    let usb = scanned_entry(
        "USB Mouse".to_string(),
        "/dev/input/event4".to_string(),
        DetectedType::Mouse,
        BusType::Usb,
    );
    assert_eq!(usb.name, "USB Mouse");
    assert_eq!(usb.path, "/dev/input/event4");
    assert!(usb.enabled && usb.supports_disable);
    assert_eq!((usb.vendor_id, usb.product_id, usb.phys), (None, None, None));
    let internal = scanned_entry(
        "AT Keyboard".to_string(),
        "/dev/input/event0".to_string(),
        DetectedType::Keyboard,
        BusType::Ps2,
    );
    assert!(!internal.supports_disable);
    assert_eq!(internal.device_type, DetectedType::Keyboard);
}

#[test]
fn ungrab_failures_name_the_device() {
    assert_eq!(
        ungrab_failure_message("/dev/input/event3", "No such device (os error 19)"),
        "failed to ungrab \"/dev/input/event3\": No such device (os error 19)"
    );
}

#[test]
fn devices_are_described_from_their_reports() {
    let kb = NodeReport { name: Some("USB Keyboard".to_string()), key: true, relative: false };
    let d = describe_device(&kb, "/dev/input/event5").expect("a keyboard");
    assert_eq!(d.name, "USB Keyboard");
    assert_eq!(d.path, "/dev/input/event5");
    assert_eq!(d.device_type, DetectedType::Keyboard);
    assert_eq!(d.bus_type, BusType::Usb);
    assert!(d.supports_disable);
    let nameless = NodeReport { name: None, key: false, relative: true };
    let m = describe_device(&nameless, "/dev/input/event1").expect("a mouse");
    assert_eq!(m.name, "Unknown");
    assert_eq!(m.bus_type, BusType::Unknown);
    let lid = NodeReport { name: Some("Lid Switch".to_string()), key: false, relative: false };
    assert!(describe_device(&lid, "/dev/input/event0").is_none());

    let reports = vec![Some(lid), None, Some(kb), Some(nameless)];
    let devices = devices_from_reports(&reports);
    assert_eq!(devices.len(), 2);
    assert_eq!(devices[0].path, "/dev/input/event2");
    assert_eq!(devices[0].name, "USB Keyboard");
    assert_eq!(devices[1].path, "/dev/input/event3");
    assert_eq!(devices[1].name, "Unknown");
}

#[test]
fn disable_errors_read_like_their_causes() {
    let grab = DisableError::Grab { cause: "Device or resource busy (os error 16)".to_string() };
    assert_eq!(grab.message(), "Device or resource busy (os error 16)");
    let ungrab = DisableError::Ungrab {
        path: "/dev/input/event2".to_string(),
        cause: "No such device (os error 19)".to_string(),
    };
    assert_eq!(ungrab.message(), "failed to ungrab \"/dev/input/event2\": No such device (os error 19)");
}
