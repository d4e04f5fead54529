use aegis_input::config::config::{config_path_for, status_path_for, Config as ServiceConfig, DeviceRules};
use aegis_input::config::{
    default_version, Config, ConfigValidationError, ConfigValidator, DeviceConfiguration, DeviceRef,
};
use aegis_input::detection::{BusType, DeviceType, InputDevice};

fn device(name: &str, path: &str) -> InputDevice {
    InputDevice {
        name: name.to_string(),
        path: path.to_string(),
        device_type: DeviceType::Keyboard,
        bus_type: BusType::Usb,
        vendor_id: None,
        product_id: None,
        phys: None,
        enabled: true,
        supports_disable: true,
    }
}

fn configuration(refs: Vec<DeviceRef>) -> DeviceConfiguration {
    DeviceConfiguration { version: "1.0".to_string(), disabled_devices: refs, created_at: 0, updated_at: 0 }
}

#[test]
fn default_rules_list_buses() {
    let config = ServiceConfig::default();
    assert!(!config.enabled);
    assert!(config.device_rules.external_buses.contains(&"usb".to_string()));
    assert!(config.device_rules.external_buses.contains(&"bluetooth".to_string()));
    assert!(config.device_rules.internal_buses.contains(&"i8042".to_string()));
    assert_eq!(
        DeviceRules::default().internal_buses,
        vec!["i8042".to_string(), "serio".to_string(), "platform".to_string(), "i2c".to_string()]
    );
}

#[test]
fn upgrade_moves_old_version_only() {
    let mut c = Config::default();
    assert_eq!(c.version, "");
    c.upgrade();
    assert_eq!(c.version, "");
    c.version = default_version();
    assert_eq!(c.version, "0.1");
    c.upgrade();
    assert_eq!(c.version, "1.0");
    c.upgrade();
    assert_eq!(c.version, "1.0");
}

#[test]
fn device_ref_matches_path_then_name() {
    let d = device("Keyboard", "/dev/input/event4");
    assert!(DeviceRef::from_path("/dev/input/event4".to_string()).matches(&d));
    assert!(!DeviceRef::from_path("/dev/input/event5".to_string()).matches(&d));
    assert!(DeviceRef::from_name("Keyboard".to_string()).matches(&d));
    let both = DeviceRef { path: Some("/x".to_string()), name: Some("Keyboard".to_string()), verified_at: None };
    assert!(both.matches(&d));
    let neither = DeviceRef { path: None, name: None, verified_at: None };
    assert!(!neither.matches(&d));
}

#[test]
fn validator_checks_count_then_references() {
    let v = ConfigValidator::new(1);
    let two = configuration(vec![
        DeviceRef { path: None, name: None, verified_at: None },
        DeviceRef::from_name("a".to_string()),
    ]);
    let err = v.validate(&two).unwrap_err();
    assert_eq!(err, ConfigValidationError::TooManyDevices { count: 2, max: 1 });
    assert_eq!(err.message(), "禁用设备数量超过限制（2 > 1）");
    let empty_ref = configuration(vec![DeviceRef { path: None, name: None, verified_at: None }]);
    assert_eq!(v.validate(&empty_ref), Err(ConfigValidationError::EmptyReference));
    assert_eq!(
        ConfigValidationError::EmptyReference.message(),
        "设备引用无效：必须提供 path 或 name"
    );
    let ok = configuration(vec![DeviceRef::from_path("/dev/input/event1".to_string())]);
    assert_eq!(v.validate(&ok), Ok(()));
    let default_validator = ConfigValidator::default();
    let ten: Vec<DeviceRef> = (0..10).map(|i| DeviceRef::from_name(format!("d{}", i))).collect();
    assert_eq!(default_validator.validate(&configuration(ten)), Ok(()));
}

#[test]
fn resolve_keeps_first_occurrences() {
    let v = ConfigValidator::default();
    let available = vec![device("A", "/dev/input/event1"), device("B", "/dev/input/event2"), device("A", "/dev/input/event3")];
    let config = configuration(vec![
        DeviceRef::from_name("A".to_string()),
        DeviceRef::from_path("/dev/input/event2".to_string()),
        DeviceRef::from_path("/dev/input/event1".to_string()),
        DeviceRef::from_name("nobody".to_string()),
    ]);
    assert_eq!(
        v.resolve_device_refs(&config, &available),
        vec!["/dev/input/event1".to_string(), "/dev/input/event3".to_string(), "/dev/input/event2".to_string()]
    );
}

#[test]
fn paths_follow_the_environment() {
    assert_eq!(config_path_for(Some("/tmp/c.toml".to_string()), None, None), "/tmp/c.toml");
    assert_eq!(
        config_path_for(None, Some("/xdg".to_string()), Some("/home/u".to_string())),
        "/xdg/aegis-input/config.toml"
    );
    assert_eq!(
        config_path_for(None, None, Some("/home/u".to_string())),
        "/home/u/.config/aegis-input/config.toml"
    );
    assert_eq!(config_path_for(None, None, None), "./aegis-input/config.toml");
    assert_eq!(status_path_for(None, Some("/xdg/".to_string()), None), "/xdg/aegis-input/status.toml");
    assert_eq!(status_path_for(None, Some(String::new()), None), "aegis-input/status.toml");
}

#[test]
fn device_paths_compare_by_components() {
    let v = ConfigValidator::default();
    let dev = device("A", "/dev/input/event1");
    assert!(DeviceRef::from_path("/dev/input//event1/".to_string()).matches(&dev));
    assert!(!DeviceRef::from_path("dev/input/event1".to_string()).matches(&dev));
    let available = vec![device("A", "/dev/input/event1"), device("A", "/dev/input/./event1")];
    let config = configuration(vec![DeviceRef::from_name("A".to_string())]);
    assert_eq!(v.resolve_device_refs(&config, &available), vec!["/dev/input/event1".to_string()]);
}

#[test]
fn equality_compares_paths_by_components() {
    assert_eq!(
        DeviceRef::from_path("/dev/input//event1/".to_string()),
        DeviceRef::from_path("/dev/input/event1".to_string())
    );
    assert_ne!(
        DeviceRef::from_path("/dev/input/event1".to_string()),
        DeviceRef::from_name("/dev/input/event1".to_string())
    );
    assert_eq!(device("A", "/dev/input/./event2"), device("A", "/dev/input/event2"));
    assert_ne!(device("A", "/dev/input/event2"), device("B", "/dev/input/event2"));
}
