//! The device-state machine and the policy actions it emits.

pub mod policy;
pub mod state;
pub mod laws;
