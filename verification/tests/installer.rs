use aegis_input::installer::error::{ErrorHandler, InstallError};
use std::path::PathBuf;
use aegis_input::installer::logging::{
    ContextLogger, EventTracker, InstallLogger, InstallProgress, LogLevel, PerformanceMonitor,
};
use aegis_input::installer::{
    check_install_preconditions, check_uninstall_preconditions,
    default_config, default_metadata, detect_platform, InstallError as FactoryError,
    InstallMetadata, InstallResult, InstallerFactory, ServiceState, SystemInfo,
};

#[test]
fn test_logging() {
    let step = InstallProgress::step("测试步骤");
    assert_eq!(step.level, LogLevel::Info);
    assert_eq!(step.message, "进度: 测试步骤");

    let ctx_logger = ContextLogger::new("测试上下文");
    let line = ctx_logger.log_info("测试上下文信息");
    assert_eq!(line.message, "[测试上下文] 测试上下文信息");
}

#[test]
fn test_default_config() {
    let config = default_config();
    assert_eq!(config.user, "aegis-input");
    assert_eq!(config.group, "input");
}

#[test]
fn test_default_metadata() {
    let metadata = default_metadata("0.1.0".to_string(), "linux", 0);
    assert_eq!(metadata.platform, "linux");
    assert_eq!(metadata.install_path, "/usr/local/bin/aegis-input");
}

#[test]
fn test_path_handling_is_cross_platform() {
    let path = PathBuf::from("/usr/local/bin/aegis-input");
    assert!(path.is_absolute());
}

#[test]
fn test_no_platform_specific_hardcoding() {
    let metadata = default_metadata("0.1.0".to_string(), "linux", 0);
    let config = default_config();
    assert!(!metadata.version.is_empty());
    assert!(!metadata.platform.is_empty());
    assert!(!config.user.is_empty());
    assert!(!config.group.is_empty());
}

#[test]
fn test_config_abstraction() {
    let config = default_config();
    assert!(!config.config_path.is_empty());
    assert!(!config.status_path.is_empty());
    assert!(!config.user.is_empty());
    assert!(!config.group.is_empty());
}

#[test]
fn test_default_metadata_and_config() {
    let metadata = default_metadata("0.1.0".to_string(), "linux", 0);
    let config = default_config();
    assert_eq!(metadata.platform, "linux");
    assert_eq!(config.user, "aegis-input");
    assert_eq!(config.group, "input");
}

#[test]
fn test_install_result_structure() {
    let result = InstallResult { success: true, error: None, duration_secs: 10 };

    assert!(result.success);
    assert!(result.error.is_none());
    assert_eq!(result.duration_secs, 10);

    let failed_result = InstallResult {
        success: false,
        error: Some("测试错误".to_string()),
        duration_secs: 5,
    };

    assert!(!failed_result.success);
    assert!(failed_result.error.is_some());
    assert_eq!(failed_result.error.unwrap(), "测试错误");
}

#[test]
fn test_error_messages_are_platform_agnostic() {
    let error = InstallError::PermissionDenied;
    let formatted = ErrorHandler::format_error(&error);
    assert!(formatted.contains("权限"), "错误消息应该说明权限问题");
    assert!(formatted.contains("root"), "错误消息应该提示需要 root");
}

#[test]
fn test_platform_detection() {
    assert_eq!(InstallerFactory::installer_platform("linux").unwrap(), "linux");
    assert_eq!(
        InstallerFactory::installer_platform("windows").unwrap_err(),
        FactoryError::InstallationFailed("不支持的平台: windows".to_string())
    );
    assert_eq!(
        InstallerFactory::installer_platform("macos").unwrap_err(),
        FactoryError::InstallationFailed("不支持的平台: macos".to_string())
    );
    assert_eq!(
        detect_platform("freebsd").unwrap_err(),
        FactoryError::InstallationFailed("不支持的操作系统: freebsd".to_string())
    );
    assert_eq!(
        FactoryError::InstallationFailed("x".to_string()).message(),
        "安装失败: x"
    );
    assert_eq!(
        FactoryError::MetadataNotFound("/var/lib/aegis-input/install.toml".to_string()).message(),
        "安装元数据文件不存在: /var/lib/aegis-input/install.toml"
    );
}

#[test]
fn error_handler_formats_and_classifies() {
    assert_eq!(
        ErrorHandler::format_error(&InstallError::SystemdNotAvailable),
        "systemd 未安装或不可用。\n请确保您的系统支持 systemd。"
    );
    assert_eq!(
        ErrorHandler::format_error(&InstallError::InstallationFailed("磁盘".to_string())),
        "安装失败: 磁盘\n\n可能的解决方案:\n- 检查磁盘空间\n- 检查网络连接\n- 确保有足够的权限"
    );
    assert_eq!(
        ErrorHandler::format_error(&InstallError::ServiceOperationFailed("x".to_string())),
        "服务操作失败: x\n\n请检查:\n- systemd 服务状态\n- 日志: journalctl -u aegis-input"
    );
    assert_eq!(
        ErrorHandler::format_error(&InstallError::PathError("p".to_string())),
        "错误: 路径错误: p"
    );
    assert!(ErrorHandler::is_recoverable(&InstallError::IoError("e".to_string())));
    assert!(!ErrorHandler::is_recoverable(&InstallError::PermissionDenied));
    assert_eq!(ErrorHandler::error_code(&InstallError::MetadataNotFound("m".to_string())), 0);
    assert_eq!(ErrorHandler::error_code(&InstallError::ConfigError("c".to_string())), 11);
    assert_eq!(ErrorHandler::error_code(&InstallError::TomlDeError("t".to_string())), 8);
}

#[test]
fn install_error_constructors() {
    assert_eq!(InstallError::new("m".to_string()), InstallError::InstallationFailed("m".to_string()));
    assert_eq!(
        InstallError::from_process_status(Some(3)),
        InstallError::ProcessError("Process failed with exit code: 3".to_string())
    );
    assert_eq!(
        InstallError::from_process_status(None),
        InstallError::ProcessError("Process failed with exit code: -1".to_string())
    );
    assert_eq!(
        InstallError::from_path("/a b"),
        InstallError::PathError("Invalid path: \"/a b\"".to_string())
    );
    assert_eq!(InstallError::TomlError("t".to_string()).message(), "TOML 序列化错误: t");
}

#[test]
fn preconditions_check_root_then_systemd() {
    let none = SystemInfo { is_root: false, has_systemd: false, has_input_group: false };
    let root = SystemInfo { is_root: true, has_systemd: false, has_input_group: true };
    let all = SystemInfo { is_root: true, has_systemd: true, has_input_group: true };
    assert_eq!(check_install_preconditions(none), Err(FactoryError::PermissionDenied));
    assert_eq!(check_install_preconditions(root), Err(FactoryError::SystemdNotAvailable));
    assert_eq!(check_install_preconditions(all), Ok(()));
    assert_eq!(check_uninstall_preconditions(none), Err(FactoryError::PermissionDenied));
    assert_eq!(check_uninstall_preconditions(root), Ok(()));
}

#[test]
fn log_lines() {
    assert_eq!(InstallLogger::log_installation_start().message, "开始安装 aegis-input");
    let ok = InstallLogger::log_installation_success(1500);
    assert_eq!(ok.message, "安装完成 (耗时: 1500ms)");
    assert_eq!(ok.level, LogLevel::Info);
    let failed = InstallLogger::log_uninstallation_failure("x");
    assert_eq!(failed.level, LogLevel::Error);
    assert_eq!(failed.message, "卸载失败: x");
    assert_eq!(InstallLogger::log_service_operation("start", false).level, LogLevel::Error);
    assert_eq!(InstallLogger::log_service_operation("start", true).message, "服务操作成功: start");
    assert_eq!(InstallLogger::log_checkpoint("a", "b").message, "检查点: a - b");
    assert_eq!(InstallProgress::warn("w").level, LogLevel::Warn);
    assert_eq!(InstallProgress::debug_info("d").message, "调试信息: d");
    assert_eq!(
        PerformanceMonitor::log_operation_duration("copy", 0).message,
        "操作完成: copy (耗时: 0ms)"
    );
    assert_eq!(PerformanceMonitor::log_cpu_usage().level, LogLevel::Debug);
    assert_eq!(
        EventTracker::track_service_event("aegis-input", "stop", false).message,
        "服务事件: aegis-input stop - 失败"
    );
    assert_eq!(EventTracker::track_error_event("io", "x").level, LogLevel::Error);
    assert_eq!(ContextLogger::new("c").log_warn("m").message, "[c] m");
}

#[test]
fn test_install_metadata_has_required_fields() {
    let metadata = InstallMetadata {
        version: "0.1.0".to_string(),
        platform: "linux".to_string(),
        install_path: "/usr/local/bin/aegis-input".to_string(),
        unit_path: Some("/etc/systemd/system/aegis-input.service".to_string()),
        installed_at: 0,
    };

    assert_eq!(metadata.version, "0.1.0");
    assert_eq!(metadata.platform, "linux");
    assert!(metadata.unit_path.is_some());
}

#[test]
fn test_service_state_has_required_fields() {
    let state = ServiceState { running: true, enabled: true, last_changed_at: 0 };

    assert!(state.running);
    assert!(state.enabled);
}

#[test]
fn remaining_log_lines() {
    let failed = InstallLogger::log_installation_failure("disk full");
    assert_eq!((failed.level, failed.message.as_str()), (LogLevel::Error, "安装失败: disk full"));
    assert_eq!(InstallLogger::log_uninstallation_start().message, "开始卸载 aegis-input");
    assert_eq!(InstallLogger::log_uninstallation_success(7).message, "卸载完成 (耗时: 7ms)");
    let ctx = ContextLogger::new("步骤");
    assert_eq!(ctx.log_error("e").level, LogLevel::Error);
    assert_eq!(ctx.log_error("e").message, "[步骤] e");
    assert_eq!(ctx.log_debug("d").level, LogLevel::Debug);
    assert_eq!(PerformanceMonitor::log_memory_usage().message, "记录内存使用情况");
    let ev = EventTracker::track_install_event("copy", "ok");
    assert_eq!((ev.level, ev.message.as_str()), (LogLevel::Info, "安装事件: copy - ok"));
}

#[test]
fn test_metadata_platform_field() {
    for os in ["linux", "windows", "macos"] {
        let metadata = default_metadata("0.1.0".to_string(), os, 0);
        assert_eq!(metadata.platform, os);
        assert_eq!(metadata.install_path, "/usr/local/bin/aegis-input");
        assert!(!metadata.version.is_empty());
    }
}
