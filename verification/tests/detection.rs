use aegis_input::detection::selector_impl::{
    parse_indices, CliDeviceSelector, IntErrorKind, SelectionError,
};
use aegis_input::detection::session::{CompletionReason, SessionState};
use aegis_input::detection::clock::{civil_time, now_with_stamp, session_stamp};
use aegis_input::detection::session_impl::LinuxDetectionSession;
use aegis_input::detection::{BusType, DetectionError, DeviceType, InputDevice};

fn device(name: &str, path: &str, device_type: DeviceType) -> InputDevice {
    InputDevice {
        name: name.to_string(),
        path: path.to_string(),
        device_type,
        bus_type: BusType::Usb,
        vendor_id: None,
        product_id: None,
        phys: None,
        enabled: true,
        supports_disable: true,
    }
}

#[test]
fn test_session_creation() {
    let devices = vec![InputDevice {
        name: "Test Keyboard".to_string(),
        path: "/dev/input/event0".to_string(),
        device_type: DeviceType::Keyboard,
        bus_type: BusType::Usb,
        vendor_id: Some(0x1234),
        product_id: Some(0x5678),
        phys: None,
        enabled: true,
        supports_disable: true,
    }];

    let session = LinuxDetectionSession::new(devices, 300);

    assert_eq!(session.active_devices().len(), 0);
}

#[test]
fn test_device_validation() {
    let device = InputDevice {
        name: "Test Device".to_string(),
        path: "/dev/input/event0".to_string(),
        device_type: DeviceType::Keyboard,
        bus_type: BusType::Usb,
        vendor_id: None,
        product_id: None,
        phys: None,
        enabled: true,
        supports_disable: true,
    };

    let _result = device.validate();
}

#[test]
fn validation_reports_first_failed_check() {
    let d = device("", "relative/path", DeviceType::Unknown);
    assert_eq!(
        d.validate_with(true),
        Err(DetectionError::ConfigValidationError("设备名称不能为空".to_string()))
    );
    let d = device("kbd", "relative/path", DeviceType::Unknown);
    assert_eq!(
        d.validate_with(true),
        Err(DetectionError::ConfigValidationError(
            "设备路径必须是绝对路径: \"relative/path\"".to_string()
        ))
    );
    let d = device("kbd", "/dev/input/event99", DeviceType::Unknown);
    assert_eq!(
        d.validate_with(false),
        Err(DetectionError::DeviceAccessFailed(
            "设备文件不存在: \"/dev/input/event99\"".to_string()
        ))
    );
    assert_eq!(
        d.validate_with(true),
        Err(DetectionError::ConfigValidationError("设备类型未知".to_string()))
    );
    let d = device("kbd", "/dev/input/event99", DeviceType::Keyboard);
    assert_eq!(d.validate_with(true), Ok(()));
    let missing = device("kbd", "/definitely/not/here/event0", DeviceType::Keyboard);
    assert!(matches!(missing.validate(), Err(DetectionError::DeviceAccessFailed(_))));
}

#[test]
fn detection_error_messages() {
    assert_eq!(DetectionError::NoDevicesFound.message(), "未检测到输入设备");
    assert_eq!(DetectionError::Timeout.message(), "操作超时");
    assert_eq!(DetectionError::PermissionDenied("x".to_string()).message(), "权限不足: x");
    assert_eq!(DetectionError::IoError("boom".to_string()).message(), "I/O 错误: boom");
    assert_eq!(
        DetectionError::ConfigValidationError("y".to_string()).message(),
        "配置验证失败: y"
    );
}

#[test]
fn parse_indices_reads_one_based_lists() {
    assert_eq!(parse_indices("1,3").unwrap(), vec![0, 2]);
    assert_eq!(parse_indices(" 2 , ,5 ").unwrap(), vec![1, 4]);
    assert_eq!(parse_indices("").unwrap(), Vec::<usize>::new());
    assert_eq!(parse_indices("+7").unwrap(), vec![6]);
    assert_eq!(parse_indices("1,0,x").unwrap_err(), SelectionError::ZeroIndex);
    assert_eq!(
        parse_indices("1,x,0").unwrap_err(),
        SelectionError::Parse(IntErrorKind::InvalidDigit)
    );
    assert_eq!(parse_indices("-1").unwrap_err(), SelectionError::Parse(IntErrorKind::InvalidDigit));
    assert_eq!(parse_indices("+").unwrap_err(), SelectionError::Parse(IntErrorKind::InvalidDigit));
    assert_eq!(
        parse_indices("99999999999999999999999").unwrap_err(),
        SelectionError::Parse(IntErrorKind::PosOverflow)
    );
    assert_eq!(SelectionError::ZeroIndex.message(), "设备编号从 1 开始");
    assert_eq!(
        SelectionError::Parse(IntErrorKind::InvalidDigit).message(),
        "invalid digit found in string"
    );
}

#[test]
fn selection_from_answers() {
    let selector = CliDeviceSelector;
    let all = vec![
        device("A", "/dev/input/event1", DeviceType::Keyboard),
        device("B", "/dev/input/event2", DeviceType::Mouse),
        device("C", "/dev/input/event3", DeviceType::Mouse),
    ];
    let active = vec!["/dev/input/event2".to_string()];
    assert!(selector.selection_from_input(" none\n", &all, &active).unwrap().is_empty());
    assert_eq!(selector.selection_from_input("all", &all, &active).unwrap(), active);
    assert_eq!(
        selector.selection_from_input("1,3,1,9", &all, &active).unwrap(),
        vec!["/dev/input/event1".to_string(), "/dev/input/event3".to_string()]
    );
    assert_eq!(
        selector.selection_from_input("0", &all, &active).unwrap_err(),
        SelectionError::ZeroIndex
    );
}

#[test]
fn selection_validation_names_the_unknown_path() {
    let selector = CliDeviceSelector;
    let all = vec![device("A", "/dev/input/event1", DeviceType::Keyboard)];
    assert_eq!(selector.validate_selection(&vec!["/dev/input/event1".to_string()], &all), Ok(()));
    let err = selector
        .validate_selection(
            &vec!["/dev/input/event1".to_string(), "/dev/input/event7".to_string()],
            &all,
        )
        .unwrap_err();
    assert_eq!(err, SelectionError::InvalidSelection("\"/dev/input/event7\"".to_string()));
    assert_eq!(err.message(), "无效的设备选择: \"/dev/input/event7\"");
}

#[test]
fn session_lifecycle() {
    let devices = vec![device("A", "/dev/input/event1", DeviceType::Keyboard)];
    let mut session = LinuxDetectionSession::new_at(devices, 30, 1_000, "20240101-000000");
    assert_eq!(session.timeout_secs(), 30);
    let info = session.start();
    assert_eq!(info.session_id, "detect-20240101-000000");
    assert_eq!(info.start_time, 1_000);
    assert_eq!(info.all_devices.len(), 1);
    let result = session.finish(CompletionReason::Timeout, 4_500);
    assert_eq!(result.duration_ms, 3_500);
    assert_eq!(result.completion_reason, CompletionReason::Timeout);
    let early = session.finish(CompletionReason::UserInterrupt, 500);
    assert_eq!(early.duration_ms, 0);
    session.cancel();
    let config = session.complete_at(&vec!["/dev/input/event1".to_string()], 7);
    assert_eq!(config.version, "1.0");
    assert_eq!(config.created_at, 7);
    assert_eq!(config.disabled_devices.len(), 1);
    assert_eq!(config.disabled_devices[0].path.as_deref(), Some("/dev/input/event1"));
    assert_eq!(config.disabled_devices[0].verified_at, Some(7));
    assert_eq!(SessionState::Failed, SessionState::Failed);
}

#[test]
fn selection_compares_paths_by_components() {
    let selector = CliDeviceSelector;
    let all = vec![
        device("A", "/dev/input/event1", DeviceType::Keyboard),
        device("B", "/dev/input//event1", DeviceType::Mouse),
    ];
    let active = vec!["/dev/input/event2".to_string(), "/dev/input/event2/".to_string()];
    assert_eq!(
        selector.selection_from_input("all", &all, &active).unwrap(),
        vec!["/dev/input/event2".to_string()]
    );
    assert_eq!(
        selector.selection_from_input("2,1", &all, &active).unwrap(),
        vec!["/dev/input//event1".to_string()]
    );
    assert_eq!(selector.validate_selection(&vec!["/dev/input/./event1".to_string()], &all), Ok(()));
}

#[test]
fn selection_menu_lists_active_then_inactive_devices() {
    let selector = CliDeviceSelector;
    let rule = "━".repeat(40);
    let all = vec![
        device("A", "/dev/input/event1", DeviceType::Keyboard),
        device("B", "/dev/input/event2", DeviceType::Mouse),
        device("C", "/dev/input//event1", DeviceType::Mouse),
    ];
    let active = vec!["/dev/input/event2".to_string()];
    let expected: Vec<String> = vec![
        format!("\n{}", rule),
        "  设备选择".to_string(),
        format!("{}\n", rule),
        "检测期间活跃的设备:\n".to_string(),
        "  ✓ [2] B".to_string(),
        String::new(),
        "未活跃的设备:\n".to_string(),
        "    [1] A".to_string(),
        "    [1] C".to_string(),
        String::new(),
        "要禁用哪些设备？（可多选）".to_string(),
        "  输入编号，如: 1,3".to_string(),
        "  输入 'all' 禁用所有活跃设备".to_string(),
        "  输入 'none' 跳过\n".to_string(),
    ];
    assert_eq!(selector.selection_menu(&all, &active), expected);
    let quiet = selector.selection_menu(&all[..1].to_vec(), &Vec::new());
    assert_eq!(quiet.len(), 3 + 3 + 4);
    assert_eq!(quiet[3], "未活跃的设备:\n");
    assert_eq!(quiet[4], "    [1] A");
}

#[test]
fn session_stamps_follow_the_strftime_layout() {
    assert_eq!(session_stamp((2024, 3, 7, 9, 5, 0)), "20240307-090500");
    assert_eq!(session_stamp((1970, 1, 1, 0, 0, 0)), "19700101-000000");
    assert_eq!(session_stamp((987, 12, 31, 23, 59, 59)), "09871231-235959");
    assert_eq!(session_stamp((12345, 1, 1, 0, 0, 0)), "+123450101-000000");
    assert_eq!(session_stamp((-1, 1, 1, 0, 0, 0)), "-00010101-000000");
    assert_eq!(civil_time(0), Some((1970, 1, 1, 0, 0, 0)));
    assert_eq!(civil_time(1431648000), Some((2015, 5, 15, 0, 0, 0)));
    let (ms, stamp) = now_with_stamp().expect("the clock reads after the epoch");
    assert!(ms > 0);
    let (y, mo, d, h, mi, s) = civil_time(ms / 1000).unwrap();
    assert_eq!(stamp, session_stamp((y, mo, d, h, mi, s)));
}
