//! Errors of device detection.

use vstd::prelude::*;

use crate::text::{concat, owned};

verus! {

/// Why a detection step failed. `IoError` holds the text of the underlying I/O error.
#[derive(Debug, Clone, PartialEq, Eq)]
pub enum DetectionError {
    NoDevicesFound,
    PermissionDenied(String),
    DeviceAccessFailed(String),
    InvalidInput(String),
    Timeout,
    IoError(String),
    DeviceNotSupported(String),
    ConfigValidationError(String),
}

/// A detection error with its text as a character sequence.
pub ghost enum DetectionErrorView {
    NoDevicesFound,
    PermissionDenied(Seq<char>),
    DeviceAccessFailed(Seq<char>),
    InvalidInput(Seq<char>),
    Timeout,
    IoError(Seq<char>),
    DeviceNotSupported(Seq<char>),
    ConfigValidationError(Seq<char>),
}

impl View for DetectionError {
    type V = DetectionErrorView;

    open spec fn view(&self) -> DetectionErrorView {
        match self {
            DetectionError::NoDevicesFound => DetectionErrorView::NoDevicesFound,
            DetectionError::PermissionDenied(m) => DetectionErrorView::PermissionDenied(m@),
            DetectionError::DeviceAccessFailed(m) => DetectionErrorView::DeviceAccessFailed(m@),
            DetectionError::InvalidInput(m) => DetectionErrorView::InvalidInput(m@),
            DetectionError::Timeout => DetectionErrorView::Timeout,
            DetectionError::IoError(m) => DetectionErrorView::IoError(m@),
            DetectionError::DeviceNotSupported(m) => DetectionErrorView::DeviceNotSupported(m@),
            DetectionError::ConfigValidationError(m) => DetectionErrorView::ConfigValidationError(
                m@,
            ),
        }
    }
}

/// The text shown for a detection error.
pub open spec fn detection_error_text(e: DetectionErrorView) -> Seq<char> {
    match e {
        DetectionErrorView::NoDevicesFound => "未检测到输入设备"@,
        DetectionErrorView::PermissionDenied(m) => "权限不足: "@ + m,
        DetectionErrorView::DeviceAccessFailed(m) => "设备访问失败: "@ + m,
        DetectionErrorView::InvalidInput(m) => "无效的用户输入: "@ + m,
        DetectionErrorView::Timeout => "操作超时"@,
        DetectionErrorView::IoError(m) => "I/O 错误: "@ + m,
        DetectionErrorView::DeviceNotSupported(m) => "设备不支持禁用: "@ + m,
        DetectionErrorView::ConfigValidationError(m) => "配置验证失败: "@ + m,
    }
}

impl DetectionError {
    /// The text shown for this error.
    pub fn message(&self) -> (r: String)
        ensures
            r@ == detection_error_text(self@),
    {
        match self {
            DetectionError::NoDevicesFound => owned("未检测到输入设备"),
            DetectionError::PermissionDenied(m) => concat("权限不足: ", m.as_str()),
            DetectionError::DeviceAccessFailed(m) => concat("设备访问失败: ", m.as_str()),
            DetectionError::InvalidInput(m) => concat("无效的用户输入: ", m.as_str()),
            DetectionError::Timeout => owned("操作超时"),
            DetectionError::IoError(m) => concat("I/O 错误: ", m.as_str()),
            DetectionError::DeviceNotSupported(m) => concat("设备不支持禁用: ", m.as_str()),
            DetectionError::ConfigValidationError(m) => concat("配置验证失败: ", m.as_str()),
        }
    }
}

} // verus!
