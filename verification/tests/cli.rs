use aegis_input::cli::config::is_confirmation;
use aegis_input::cli::detect::{device_listing, format_bus_type, format_device_type, DetectArgs, OutputFormat};
use aegis_input::cli::main::{parse_command, status_report, usage_text, Command};
use aegis_input::detection::{BusType, DeviceType, InputDevice};
use aegis_input::service::status::StatusSnapshot;

fn args(v: &[&str]) -> Vec<String> {
    v.iter().map(|s| s.to_string()).collect()
}

#[test]
fn commands_are_read_from_arguments() {
    assert_eq!(parse_command(&args(&["aegis-input"])), Command::Usage);
    assert_eq!(parse_command(&args(&["aegis-input", "enable"])), Command::Enable);
    assert_eq!(parse_command(&args(&["aegis-input", "disable"])), Command::Disable);
    assert_eq!(parse_command(&args(&["aegis-input", "status"])), Command::Status);
    assert_eq!(parse_command(&args(&["aegis-input", "run"])), Command::Run);
    assert_eq!(parse_command(&args(&["aegis-input", "detect"])), Command::Detect { config_only: false });
    assert_eq!(
        parse_command(&args(&["aegis-input", "detect", "--config-only"])),
        Command::Detect { config_only: true }
    );
    assert_eq!(
        parse_command(&args(&["aegis-input", "config", "--reset"])),
        Command::Config { reset: true }
    );
    assert_eq!(
        parse_command(&args(&["aegis-input", "config", "--verbose", "--reset"])),
        Command::Config { reset: true }
    );
    assert_eq!(parse_command(&args(&["aegis-input", "config"])), Command::Config { reset: false });
    assert_eq!(
        parse_command(&args(&["aegis-input", "config", "reset"])),
        Command::Config { reset: true }
    );
    assert_eq!(parse_command(&args(&["aegis-input", "bogus"])), Command::Usage);
    assert_eq!(usage_text(), "Usage: aegis-input <enable|disable|status|run|detect|config>");
}

#[test]
fn status_lines_show_the_snapshot() {
    let lines = status_report(&StatusSnapshot {
        enabled: true,
        keyboard_external_count: 2,
        pointing_external_count: 10,
        keyboard_disabled: true,
        pointing_disabled: false,
    });
    assert_eq!(
        lines,
        vec![
            "enabled=true",
            "keyboard_external_count=2",
            "pointing_external_count=10",
            "keyboard_disabled=true",
            "pointing_disabled=false",
        ]
    );
    assert_eq!(status_report(&StatusSnapshot::for_enabled(false))[0], "enabled=false");
}

#[test]
fn labels_and_defaults() {
    assert_eq!(format_device_type(DeviceType::Keyboard), "键盘");
    assert_eq!(format_device_type(DeviceType::Unknown), "未知");
    assert_eq!(format_bus_type(BusType::Bluetooth), "蓝牙");
    assert_eq!(format_bus_type(BusType::Ps2), "PS2");
    assert_eq!(
        DetectArgs::defaults(),
        DetectArgs { timeout: 300, output: OutputFormat::Auto, config_only: false }
    );
}

#[test]
fn confirmation_answers() {
    assert!(is_confirmation("y\n"));
    assert!(is_confirmation("  Yes "));
    assert!(!is_confirmation("n"));
    assert!(!is_confirmation(""));
    assert!(!is_confirmation(" no y"));
}

#[test]
fn device_listing_shows_each_device() {
    let devices = vec![
        InputDevice {
            name: "USB Keyboard".to_string(),
            path: "/dev/input/event3".to_string(),
            device_type: DeviceType::Keyboard,
            bus_type: BusType::Usb,
            vendor_id: None,
            product_id: None,
            phys: None,
            enabled: true,
            supports_disable: true,
        },
        InputDevice {
            name: "Touchpad".to_string(),
            path: "/dev/input/event7".to_string(),
            device_type: DeviceType::Mouse,
            bus_type: BusType::I2c,
            vendor_id: None,
            product_id: None,
            phys: None,
            enabled: true,
            supports_disable: true,
        },
    ];
    assert_eq!(
        device_listing(&devices),
        vec![
            "检测到 2 个输入设备:\n".to_string(),
            "  [1] USB Keyboard".to_string(),
            "      路径: \"/dev/input/event3\"".to_string(),
            "      类型: 键盘 | 总线: USB".to_string(),
            String::new(),
            "  [2] Touchpad".to_string(),
            "      路径: \"/dev/input/event7\"".to_string(),
            "      类型: 鼠标 | 总线: I2C".to_string(),
            String::new(),
        ]
    );
    assert_eq!(device_listing(&Vec::new()), vec!["检测到 0 个输入设备:\n".to_string()]);
}
