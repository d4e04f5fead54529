//! The log lines of the installer. Each function gives the line it stands for, with
//! its level; the program writes it to the log.

use vstd::prelude::*;

use crate::text::{concat, decimal, owned, push_decimal};

verus! {

/// How important a log line is.
#[derive(Debug, Clone, Copy, PartialEq, Eq, Structural)]
pub enum LogLevel {
    Debug,
    Info,
    Warn,
    Error,
}

/// One log line.
#[derive(Debug, Clone)]
pub struct LogRecord {
    pub level: LogLevel,
    pub message: String,
}

/// Whether `r` is the line `text` at `level`.
pub open spec fn is_record(r: LogRecord, level: LogLevel, text: Seq<char>) -> bool {
    r.level == level && r.message@ == text
}

/// `before`, the decimal `n`, then `after`.
fn with_number(before: &str, n: u64, after: &str) -> (s: String)
    ensures
        s@ == before@ + decimal(n as nat) + after@,
{
    let mut s = owned(before);
    push_decimal(&mut s, n);
    s.push_str(after);
    s
}

/// `a`, then `x`, then `b`, then `y`.
fn two_parts(a: &str, x: &str, b: &str, y: &str) -> (s: String)
    ensures
        s@ == a@ + x@ + b@ + y@,
{
    let mut s = concat(a, x);
    s.push_str(b);
    s.push_str(y);
    s
}

/// Lines about installing and removing the service.
pub struct InstallLogger;

impl InstallLogger {
    pub fn log_installation_start() -> (r: LogRecord)
        ensures
            is_record(r, LogLevel::Info, "开始安装 aegis-input"@),
    {
        LogRecord { level: LogLevel::Info, message: owned("开始安装 aegis-input") }
    }

    pub fn log_installation_success(duration_ms: u64) -> (r: LogRecord)
        ensures
            is_record(r, LogLevel::Info, "安装完成 (耗时: "@ + decimal(duration_ms as nat) + "ms)"@),
    {
        LogRecord { level: LogLevel::Info, message: with_number("安装完成 (耗时: ", duration_ms, "ms)") }
    }

    pub fn log_installation_failure(error: &str) -> (r: LogRecord)
        ensures
            is_record(r, LogLevel::Error, "安装失败: "@ + error@),
    {
        LogRecord { level: LogLevel::Error, message: concat("安装失败: ", error) }
    }

    pub fn log_uninstallation_start() -> (r: LogRecord)
        ensures
            is_record(r, LogLevel::Info, "开始卸载 aegis-input"@),
    {
        LogRecord { level: LogLevel::Info, message: owned("开始卸载 aegis-input") }
    }

    pub fn log_uninstallation_success(duration_ms: u64) -> (r: LogRecord)
        ensures
            is_record(r, LogLevel::Info, "卸载完成 (耗时: "@ + decimal(duration_ms as nat) + "ms)"@),
    {
        LogRecord { level: LogLevel::Info, message: with_number("卸载完成 (耗时: ", duration_ms, "ms)") }
    }

    pub fn log_uninstallation_failure(error: &str) -> (r: LogRecord)
        ensures
            is_record(r, LogLevel::Error, "卸载失败: "@ + error@),
    {
        LogRecord { level: LogLevel::Error, message: concat("卸载失败: ", error) }
    }

    /// A successful operation is logged as information, a failed one as an error.
    pub fn log_service_operation(operation: &str, success: bool) -> (r: LogRecord)
        ensures
            success ==> is_record(r, LogLevel::Info, "服务操作成功: "@ + operation@),
            !success ==> is_record(r, LogLevel::Error, "服务操作失败: "@ + operation@),
    {
        if success {
            LogRecord { level: LogLevel::Info, message: concat("服务操作成功: ", operation) }
        } else {
            LogRecord { level: LogLevel::Error, message: concat("服务操作失败: ", operation) }
        }
    }

    pub fn log_checkpoint(phase: &str, status: &str) -> (r: LogRecord)
        ensures
            is_record(r, LogLevel::Info, "检查点: "@ + phase@ + " - "@ + status@),
    {
        LogRecord { level: LogLevel::Info, message: two_parts("检查点: ", phase, " - ", status) }
    }
}

/// Lines about the progress of an installation.
pub struct InstallProgress;

impl InstallProgress {
    pub fn step(step: &str) -> (r: LogRecord)
        ensures
            is_record(r, LogLevel::Info, "进度: "@ + step@),
    {
        LogRecord { level: LogLevel::Info, message: concat("进度: ", step) }
    }

    pub fn warn(warning: &str) -> (r: LogRecord)
        ensures
            is_record(r, LogLevel::Warn, "警告: "@ + warning@),
    {
        LogRecord { level: LogLevel::Warn, message: concat("警告: ", warning) }
    }

    pub fn debug_info(message: &str) -> (r: LogRecord)
        ensures
            is_record(r, LogLevel::Debug, "调试信息: "@ + message@),
    {
        LogRecord { level: LogLevel::Debug, message: concat("调试信息: ", message) }
    }
}

/// Lines tagged with a context, shown in brackets before the text.
pub struct ContextLogger {
    context: String,
}

impl ContextLogger {
    /// The context shown with each line.
    pub closed spec fn context_view(&self) -> Seq<char> {
        self.context@
    }

    pub fn new(context: &str) -> (l: Self)
        ensures
            l.context_view() == context@,
    {
        Self { context: owned(context) }
    }

    fn tagged(&self, level: LogLevel, message: &str) -> (r: LogRecord)
        ensures
            is_record(r, level, "["@ + self.context_view() + "] "@ + message@),
    {
        LogRecord { level, message: two_parts("[", self.context.as_str(), "] ", message) }
    }

    pub fn log_info(&self, message: &str) -> (r: LogRecord)
        ensures
            is_record(r, LogLevel::Info, "["@ + self.context_view() + "] "@ + message@),
    {
        self.tagged(LogLevel::Info, message)
    }

    pub fn log_error(&self, message: &str) -> (r: LogRecord)
        ensures
            is_record(r, LogLevel::Error, "["@ + self.context_view() + "] "@ + message@),
    {
        self.tagged(LogLevel::Error, message)
    }

    pub fn log_warn(&self, message: &str) -> (r: LogRecord)
        ensures
            is_record(r, LogLevel::Warn, "["@ + self.context_view() + "] "@ + message@),
    {
        self.tagged(LogLevel::Warn, message)
    }

    pub fn log_debug(&self, message: &str) -> (r: LogRecord)
        ensures
            is_record(r, LogLevel::Debug, "["@ + self.context_view() + "] "@ + message@),
    {
        self.tagged(LogLevel::Debug, message)
    }
}

/// Lines about how long operations take.
pub struct PerformanceMonitor;

impl PerformanceMonitor {
    pub fn log_operation_duration(operation: &str, duration_ms: u64) -> (r: LogRecord)
        ensures
            is_record(
                r,
                LogLevel::Info,
                "操作完成: "@ + operation@ + " (耗时: "@ + decimal(duration_ms as nat) + "ms)"@,
            ),
    {
        let mut s = concat("操作完成: ", operation);
        s.push_str(" (耗时: ");
        push_decimal(&mut s, duration_ms);
        s.push_str("ms)");
        LogRecord { level: LogLevel::Info, message: s }
    }

    pub fn log_memory_usage() -> (r: LogRecord)
        ensures
            is_record(r, LogLevel::Debug, "记录内存使用情况"@),
    {
        LogRecord { level: LogLevel::Debug, message: owned("记录内存使用情况") }
    }

    pub fn log_cpu_usage() -> (r: LogRecord)
        ensures
            is_record(r, LogLevel::Debug, "记录 CPU 使用情况"@),
    {
        LogRecord { level: LogLevel::Debug, message: owned("记录 CPU 使用情况") }
    }
}

/// Lines that record installer events.
pub struct EventTracker;

impl EventTracker {
    pub fn track_install_event(event_type: &str, details: &str) -> (r: LogRecord)
        ensures
            is_record(r, LogLevel::Info, "安装事件: "@ + event_type@ + " - "@ + details@),
    {
        LogRecord { level: LogLevel::Info, message: two_parts("安装事件: ", event_type, " - ", details) }
    }

    pub fn track_error_event(error_type: &str, details: &str) -> (r: LogRecord)
        ensures
            is_record(r, LogLevel::Error, "错误事件: "@ + error_type@ + " - "@ + details@),
    {
        LogRecord { level: LogLevel::Error, message: two_parts("错误事件: ", error_type, " - ", details) }
    }

    /// The outcome is shown as 成功 or 失败.
    pub fn track_service_event(service_name: &str, action: &str, success: bool) -> (r: LogRecord)
        ensures
            is_record(
                r,
                LogLevel::Info,
                "服务事件: "@ + service_name@ + " "@ + action@ + " - "@ + (if success {
                    "成功"@
                } else {
                    "失败"@
                }),
            ),
    {
        let status = if success {
            "成功"
        } else {
            "失败"
        };
        let mut s = two_parts("服务事件: ", service_name, " ", action);
        s.push_str(" - ");
        s.push_str(status);
        LogRecord { level: LogLevel::Info, message: s }
    }
}

} // verus!
