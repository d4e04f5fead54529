//! Installer errors, how they are shown, and which of them are worth retrying.

use vstd::prelude::*;

use crate::detection::{debug_path, path_debug};
use crate::text::{concat, owned, push_signed_decimal, signed_decimal};

verus! {

/// Why an installer step failed. `IoError`, `TomlError` and `TomlDeError` hold the
/// text of the underlying I/O, TOML serialisation or TOML parse error.
#[derive(Debug, Clone, PartialEq, Eq)]
pub enum InstallError {
    MetadataNotFound(String),
    PermissionDenied,
    SystemdNotAvailable,
    InstallationFailed(String),
    UninstallationFailed(String),
    ServiceOperationFailed(String),
    IoError(String),
    TomlError(String),
    TomlDeError(String),
    ProcessError(String),
    PathError(String),
    ConfigError(String),
}

/// An installer error with its texts as character sequences.
pub ghost enum InstallErrorView {
    MetadataNotFound(Seq<char>),
    PermissionDenied,
    SystemdNotAvailable,
    InstallationFailed(Seq<char>),
    UninstallationFailed(Seq<char>),
    ServiceOperationFailed(Seq<char>),
    IoError(Seq<char>),
    TomlError(Seq<char>),
    TomlDeError(Seq<char>),
    ProcessError(Seq<char>),
    PathError(Seq<char>),
    ConfigError(Seq<char>),
}

impl View for InstallError {
    type V = InstallErrorView;

    open spec fn view(&self) -> InstallErrorView {
        match self {
            InstallError::MetadataNotFound(m) => InstallErrorView::MetadataNotFound(m@),
            InstallError::PermissionDenied => InstallErrorView::PermissionDenied,
            InstallError::SystemdNotAvailable => InstallErrorView::SystemdNotAvailable,
            InstallError::InstallationFailed(m) => InstallErrorView::InstallationFailed(m@),
            InstallError::UninstallationFailed(m) => InstallErrorView::UninstallationFailed(m@),
            InstallError::ServiceOperationFailed(m) => InstallErrorView::ServiceOperationFailed(
                m@,
            ),
            InstallError::IoError(m) => InstallErrorView::IoError(m@),
            InstallError::TomlError(m) => InstallErrorView::TomlError(m@),
            InstallError::TomlDeError(m) => InstallErrorView::TomlDeError(m@),
            InstallError::ProcessError(m) => InstallErrorView::ProcessError(m@),
            InstallError::PathError(m) => InstallErrorView::PathError(m@),
            InstallError::ConfigError(m) => InstallErrorView::ConfigError(m@),
        }
    }
}

/// The text shown for an installer error.
pub open spec fn error_text(e: InstallErrorView) -> Seq<char> {
    match e {
        InstallErrorView::MetadataNotFound(m) => "安装元数据文件不存在: "@ + m,
        InstallErrorView::PermissionDenied => "权限不足，请使用 root 用户执行"@,
        InstallErrorView::SystemdNotAvailable => "systemd 未安装或不可用"@,
        InstallErrorView::InstallationFailed(m) => "安装失败: "@ + m,
        InstallErrorView::UninstallationFailed(m) => "卸载失败: "@ + m,
        InstallErrorView::ServiceOperationFailed(m) => "服务操作失败: "@ + m,
        InstallErrorView::IoError(m) => "IO 错误: "@ + m,
        InstallErrorView::TomlError(m) => "TOML 序列化错误: "@ + m,
        InstallErrorView::TomlDeError(m) => "TOML 反序列化错误: "@ + m,
        InstallErrorView::ProcessError(m) => "进程执行错误: "@ + m,
        InstallErrorView::PathError(m) => "路径错误: "@ + m,
        InstallErrorView::ConfigError(m) => "配置错误: "@ + m,
    }
}

impl InstallError {
    /// An installation failure with the given text.
    pub fn new(message: String) -> (e: Self)
        ensures
            e == InstallError::InstallationFailed(message),
    {
        InstallError::InstallationFailed(message)
    }

    /// The error for a process that ended unsuccessfully with exit code `code`
    /// (`None` when a signal ended it, shown as -1).
    pub fn from_process_status(code: Option<i32>) -> (e: Self)
        ensures
            e@ == InstallErrorView::ProcessError(
                "Process failed with exit code: "@ + signed_decimal(
                    match code {
                        Some(c) => c as int,
                        None => -1,
                    },
                ),
            ),
    {
        let c: i32 = match code {
            Some(c) => c,
            None => -1,
        };
        let mut m = owned("Process failed with exit code: ");
        push_signed_decimal(&mut m, c as i64);
        InstallError::ProcessError(m)
    }

    /// The error for an unusable path; the path is shown as `Debug` prints it.
    pub fn from_path(path: &str) -> (e: Self)
        ensures
            e@ == InstallErrorView::PathError("Invalid path: "@ + path_debug(path@)),
    {
        let shown = debug_path(path);
        InstallError::PathError(concat("Invalid path: ", shown.as_str()))
    }

    /// The text shown for this error.
    pub fn message(&self) -> (r: String)
        ensures
            r@ == error_text(self@),
    {
        match self {
            InstallError::MetadataNotFound(m) => concat("安装元数据文件不存在: ", m.as_str()),
            InstallError::PermissionDenied => owned("权限不足，请使用 root 用户执行"),
            InstallError::SystemdNotAvailable => owned("systemd 未安装或不可用"),
            InstallError::InstallationFailed(m) => concat("安装失败: ", m.as_str()),
            InstallError::UninstallationFailed(m) => concat("卸载失败: ", m.as_str()),
            InstallError::ServiceOperationFailed(m) => concat("服务操作失败: ", m.as_str()),
            InstallError::IoError(m) => concat("IO 错误: ", m.as_str()),
            InstallError::TomlError(m) => concat("TOML 序列化错误: ", m.as_str()),
            InstallError::TomlDeError(m) => concat("TOML 反序列化错误: ", m.as_str()),
            InstallError::ProcessError(m) => concat("进程执行错误: ", m.as_str()),
            InstallError::PathError(m) => concat("路径错误: ", m.as_str()),
            InstallError::ConfigError(m) => concat("配置错误: ", m.as_str()),
        }
    }
}

/// Presents installer errors to the user.
pub struct ErrorHandler;

/// The guidance shown for an installer error.
pub open spec fn formatted_error(e: InstallErrorView) -> Seq<char> {
    match e {
        InstallErrorView::PermissionDenied => "权限不足。请使用 root 用户执行安装脚本。\n"@
            + "运行命令: sudo ./install/linux/install.sh"@,
        InstallErrorView::SystemdNotAvailable => "systemd 未安装或不可用。\n"@
            + "请确保您的系统支持 systemd。"@,
        InstallErrorView::InstallationFailed(m) => "安装失败: "@ + m
            + "\n\n可能的解决方案:\n- 检查磁盘空间\n- 检查网络连接\n- 确保有足够的权限"@,
        InstallErrorView::ServiceOperationFailed(m) => "服务操作失败: "@ + m
            + "\n\n请检查:\n- systemd 服务状态\n- 日志: journalctl -u aegis-input"@,
        _ => "错误: "@ + error_text(e),
    }
}

/// Whether retrying may help after this error.
pub open spec fn recoverable(e: InstallErrorView) -> bool {
    match e {
        InstallErrorView::InstallationFailed(_) => true,
        InstallErrorView::ServiceOperationFailed(_) => true,
        InstallErrorView::IoError(_) => true,
        InstallErrorView::ProcessError(_) => true,
        _ => false,
    }
}

/// The number that identifies the kind of an installer error.
pub open spec fn code_of(e: InstallErrorView) -> i32 {
    match e {
        InstallErrorView::MetadataNotFound(_) => 0,
        InstallErrorView::PermissionDenied => 1,
        InstallErrorView::SystemdNotAvailable => 2,
        InstallErrorView::InstallationFailed(_) => 3,
        InstallErrorView::UninstallationFailed(_) => 4,
        InstallErrorView::ServiceOperationFailed(_) => 5,
        InstallErrorView::IoError(_) => 6,
        InstallErrorView::TomlError(_) => 7,
        InstallErrorView::TomlDeError(_) => 8,
        InstallErrorView::ProcessError(_) => 9,
        InstallErrorView::PathError(_) => 10,
        InstallErrorView::ConfigError(_) => 11,
    }
}

impl ErrorHandler {
    /// The guidance shown for `error`: advice for the common failures, else the error text.
    pub fn format_error(error: &InstallError) -> (r: String)
        ensures
            r@ == formatted_error(error@),
    {
        match error {
            InstallError::PermissionDenied => {
                let mut s = owned("权限不足。请使用 root 用户执行安装脚本。\n");
                s.push_str("运行命令: sudo ./install/linux/install.sh");
                s
            },
            InstallError::SystemdNotAvailable => {
                let mut s = owned("systemd 未安装或不可用。\n");
                s.push_str("请确保您的系统支持 systemd。");
                s
            },
            InstallError::InstallationFailed(msg) => {
                let mut s = concat("安装失败: ", msg.as_str());
                s.push_str("\n\n可能的解决方案:\n- 检查磁盘空间\n- 检查网络连接\n- 确保有足够的权限");
                s
            },
            InstallError::ServiceOperationFailed(msg) => {
                let mut s = concat("服务操作失败: ", msg.as_str());
                s.push_str("\n\n请检查:\n- systemd 服务状态\n- 日志: journalctl -u aegis-input");
                s
            },
            _ => {
                let text = error.message();
                concat("错误: ", text.as_str())
            },
        }
    }

    /// Whether retrying may help: installation, service, I/O and process failures.
    pub fn is_recoverable(error: &InstallError) -> (r: bool)
        ensures
            r == recoverable(error@),
    {
        match error {
            InstallError::InstallationFailed(_) | InstallError::ServiceOperationFailed(_)
            | InstallError::IoError(_) | InstallError::ProcessError(_) => true,
            _ => false,
        }
    }

    /// The number that identifies the kind of `error`.
    pub fn error_code(error: &InstallError) -> (r: i32)
        ensures
            r == code_of(error@),
    {
        match error {
            InstallError::MetadataNotFound(_) => 0,
            InstallError::PermissionDenied => 1,
            InstallError::SystemdNotAvailable => 2,
            InstallError::InstallationFailed(_) => 3,
            InstallError::UninstallationFailed(_) => 4,
            InstallError::ServiceOperationFailed(_) => 5,
            InstallError::IoError(_) => 6,
            InstallError::TomlError(_) => 7,
            InstallError::TomlDeError(_) => 8,
            InstallError::ProcessError(_) => 9,
            InstallError::PathError(_) => 10,
            InstallError::ConfigError(_) => 11,
        }
    }
}

} // verus!
