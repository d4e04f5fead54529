//! Installation: where the service is installed, how it runs, and which platforms have
//! an installer.

use vstd::prelude::*;

use crate::text::{concat, owned};

pub mod error;
pub mod logging;
pub mod plan;

verus! {

/// What an installation left on the machine. `installed_at` counts milliseconds since
/// the UNIX epoch, UTC.
#[derive(Debug, Clone)]
pub struct InstallMetadata {
    pub version: String,
    pub platform: String,
    pub install_path: String,
    pub unit_path: Option<String>,
    pub installed_at: i64,
}

/// Whether the service runs and starts at boot. `last_changed_at` counts milliseconds
/// since the UNIX epoch, UTC.
#[derive(Debug, Clone)]
pub struct ServiceState {
    pub running: bool,
    pub enabled: bool,
    pub last_changed_at: i64,
}

/// Where the installed service keeps its files and whom it runs as.
#[derive(Debug, Clone)]
pub struct InstallConfig {
    pub config_path: String,
    pub status_path: String,
    pub user: String,
    pub group: String,
}

/// Why an installer step failed. `MetadataNotFound` holds the metadata path.
#[derive(Debug, Clone, PartialEq, Eq)]
pub enum InstallError {
    MetadataNotFound(String),
    PermissionDenied,
    SystemdNotAvailable,
    InstallationFailed(String),
    UninstallationFailed(String),
    ServiceOperationFailed(String),
}

/// An installer error with its texts as character sequences.
pub ghost enum InstallErrorView {
    MetadataNotFound(Seq<char>),
    PermissionDenied,
    SystemdNotAvailable,
    InstallationFailed(Seq<char>),
    UninstallationFailed(Seq<char>),
    ServiceOperationFailed(Seq<char>),
}

impl View for InstallError {
    type V = InstallErrorView;

    open spec fn view(&self) -> InstallErrorView {
        match self {
            InstallError::MetadataNotFound(p) => InstallErrorView::MetadataNotFound(p@),
            InstallError::PermissionDenied => InstallErrorView::PermissionDenied,
            InstallError::SystemdNotAvailable => InstallErrorView::SystemdNotAvailable,
            InstallError::InstallationFailed(m) => InstallErrorView::InstallationFailed(m@),
            InstallError::UninstallationFailed(m) => InstallErrorView::UninstallationFailed(m@),
            InstallError::ServiceOperationFailed(m) => InstallErrorView::ServiceOperationFailed(
                m@,
            ),
        }
    }
}

/// The text shown for an installer error.
pub open spec fn install_error_text(e: InstallErrorView) -> Seq<char> {
    match e {
        InstallErrorView::MetadataNotFound(p) => "安装元数据文件不存在: "@ + p,
        InstallErrorView::PermissionDenied => "权限不足，请使用 root 用户执行"@,
        InstallErrorView::SystemdNotAvailable => "systemd 未安装或不可用"@,
        InstallErrorView::InstallationFailed(m) => "安装失败: "@ + m,
        InstallErrorView::UninstallationFailed(m) => "卸载失败: "@ + m,
        InstallErrorView::ServiceOperationFailed(m) => "服务操作失败: "@ + m,
    }
}

impl InstallError {
    /// The text shown for this error.
    pub fn message(&self) -> (r: String)
        ensures
            r@ == install_error_text(self@),
    {
        match self {
            InstallError::MetadataNotFound(p) => concat("安装元数据文件不存在: ", p.as_str()),
            InstallError::PermissionDenied => owned("权限不足，请使用 root 用户执行"),
            InstallError::SystemdNotAvailable => owned("systemd 未安装或不可用"),
            InstallError::InstallationFailed(m) => concat("安装失败: ", m.as_str()),
            InstallError::UninstallationFailed(m) => concat("卸载失败: ", m.as_str()),
            InstallError::ServiceOperationFailed(m) => concat("服务操作失败: ", m.as_str()),
        }
    }
}

/// The outcome of an install or uninstall run.
#[derive(Debug, Clone)]
pub struct InstallResult {
    pub success: bool,
    pub error: Option<String>,
    pub duration_secs: u64,
}

/// The platform name for an operating system name, as `std::env::consts::OS` gives it.
pub open spec fn platform_of(os: Seq<char>) -> Result<Seq<char>, InstallErrorView> {
    if os == "linux"@ || os == "windows"@ || os == "macos"@ {
        Ok(os)
    } else {
        Err(InstallErrorView::InstallationFailed("不支持的操作系统: "@ + os))
    }
}

/// The platform name for the operating system `os`; only Linux, Windows and macOS
/// are known.
pub fn detect_platform(os: &str) -> (r: Result<String, InstallError>)
    ensures
        match r {
            Ok(p) => platform_of(os@) == Ok::<Seq<char>, InstallErrorView>(p@),
            Err(e) => platform_of(os@) == Err::<Seq<char>, InstallErrorView>(e@),
        },
{
    if crate::text::str_eq(os, "linux") || crate::text::str_eq(os, "windows")
        || crate::text::str_eq(os, "macos") {
        Ok(owned(os))
    } else {
        Err(InstallError::InstallationFailed(concat("不支持的操作系统: ", os)))
    }
}

/// Chooses the installer for the running platform.
pub struct InstallerFactory;

/// The platform an installer exists for, given the operating system name.
pub open spec fn installer_platform(os: Seq<char>) -> Result<Seq<char>, InstallErrorView> {
    match platform_of(os) {
        Err(e) => Err(e),
        Ok(p) => if p == "linux"@ {
            Ok(p)
        } else {
            Err(InstallErrorView::InstallationFailed("不支持的平台: "@ + p))
        },
    }
}

impl InstallerFactory {
    /// The platform whose installer is to be built on the operating system `os`: Linux
    /// has one; Windows and macOS are known but have none yet.
    pub fn installer_platform(os: &str) -> (r: Result<String, InstallError>)
        ensures
            match r {
                Ok(p) => installer_platform(os@) == Ok::<Seq<char>, InstallErrorView>(p@),
                Err(e) => installer_platform(os@) == Err::<Seq<char>, InstallErrorView>(e@),
            },
    {
        let platform = detect_platform(os)?;
        if crate::text::str_eq(platform.as_str(), "linux") {
            Ok(platform)
        } else {
            Err(InstallError::InstallationFailed(concat("不支持的平台: ", platform.as_str())))
        }
    }
}

/// The metadata of an installation of `version` on the operating system `os` (as
/// `std::env::consts::OS` names it) made at `installed_at`.
pub fn default_metadata(version: String, os: &str, installed_at: i64) -> (m: InstallMetadata)
    ensures
        m.version@ == version@,
        m.platform@ == os@,
        m.install_path@ == "/usr/local/bin/aegis-input"@,
        m.unit_path matches Some(u) && u@ == "/etc/systemd/system/aegis-input.service"@,
        m.installed_at == installed_at,
{
    InstallMetadata {
        version,
        platform: owned(os),
        install_path: owned("/usr/local/bin/aegis-input"),
        unit_path: Some(owned("/etc/systemd/system/aegis-input.service")),
        installed_at,
    }
}

/// The file locations and the account of a system-wide installation.
pub fn default_config() -> (c: InstallConfig)
    ensures
        c.config_path@ == "/etc/aegis-input/config.toml"@,
        c.status_path@ == "/var/lib/aegis-input/status.toml"@,
        c.user@ == "aegis-input"@,
        c.group@ == "input"@,
{
    InstallConfig {
        config_path: owned("/etc/aegis-input/config.toml"),
        status_path: owned("/var/lib/aegis-input/status.toml"),
        user: owned("aegis-input"),
        group: owned("input"),
    }
}

/// What the installer found out about the machine.
#[derive(Debug, Clone, Copy, PartialEq, Eq, Structural)]
pub struct SystemInfo {
    pub is_root: bool,
    pub has_systemd: bool,
    pub has_input_group: bool,
}

/// An install needs root and systemd, checked in that order.
pub fn check_install_preconditions(info: SystemInfo) -> (r: Result<(), InstallError>)
    ensures
        !info.is_root ==> r == Err::<(), InstallError>(InstallError::PermissionDenied),
        info.is_root && !info.has_systemd ==> r == Err::<(), InstallError>(
            InstallError::SystemdNotAvailable,
        ),
        info.is_root && info.has_systemd ==> r is Ok,
{
    if !info.is_root {
        return Err(InstallError::PermissionDenied);
    }
    if !info.has_systemd {
        return Err(InstallError::SystemdNotAvailable);
    }
    Ok(())
}

/// An uninstall needs root.
pub fn check_uninstall_preconditions(info: SystemInfo) -> (r: Result<(), InstallError>)
    ensures
        !info.is_root ==> r == Err::<(), InstallError>(InstallError::PermissionDenied),
        info.is_root ==> r is Ok,
{
    if !info.is_root {
        return Err(InstallError::PermissionDenied);
    }
    Ok(())
}

} // verus!
