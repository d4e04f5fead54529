//! Input events seen while watching a device.

use vstd::prelude::*;

verus! {

/// What kind of input a device produced.
#[derive(Debug, Clone, PartialEq, Eq, Structural)]
pub enum InputEventType {
    Keyboard { key_code: u16 },
    Mouse { x: i32, y: i32 },
    Unknown,
}

/// One input event of a watched device. `timestamp` counts milliseconds since the UNIX
/// epoch, UTC.
#[derive(Debug, Clone)]
pub struct InputEvent {
    pub device_path: String,
    pub event_type: InputEventType,
    pub timestamp: i64,
}

} // verus!
