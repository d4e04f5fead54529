//! What a detection session reports and the states it goes through.

use vstd::prelude::*;

use crate::detection::InputDevice;

verus! {

/// What a started session reports. `start_time` counts milliseconds since the UNIX
/// epoch, UTC.
#[derive(Debug, Clone)]
pub struct SessionStartInfo {
    pub session_id: String,
    pub all_devices: Vec<InputDevice>,
    pub start_time: i64,
}

/// What a finished session reports. `end_time` counts milliseconds since the UNIX epoch,
/// UTC; `duration_ms` is the time the session ran, in milliseconds.
#[derive(Debug, Clone)]
pub struct SessionResult {
    pub session_id: String,
    pub end_time: i64,
    pub active_devices: Vec<String>,
    pub duration_ms: u64,
    pub completion_reason: CompletionReason,
}

/// Why a session ended.
#[derive(Debug, Clone, Copy, PartialEq, Eq, Structural)]
pub enum CompletionReason {
    /// The user pressed Ctrl+C.
    UserInterrupt,
    Timeout,
    Error,
}

/// Where a session stands.
#[derive(Debug, Clone, Copy, PartialEq, Eq, Structural)]
pub enum SessionState {
    Initializing,
    Running,
    UserSelection,
    Completed,
    Failed,
}

} // verus!
