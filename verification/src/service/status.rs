use vstd::prelude::*;

use crate::logic::state::SystemState;

verus! {

/// What the service reports of its state: the feature switch, the attached external
/// devices of each type, and which built-in types are disabled.
#[derive(Debug, Clone, PartialEq, Eq, Structural)]
pub struct StatusSnapshot {
    pub enabled: bool,
    pub keyboard_external_count: usize,
    pub pointing_external_count: usize,
    pub keyboard_disabled: bool,
    pub pointing_disabled: bool,
}

impl StatusSnapshot {
    pub fn from_state(state: &SystemState) -> (s: Self)
        ensures
            s.enabled == state.feature.enabled,
            s.keyboard_external_count == state.policy.keyboard_external_count,
            s.pointing_external_count == state.policy.pointing_external_count,
            s.keyboard_disabled == state.policy.keyboard_disabled,
            s.pointing_disabled == state.policy.pointing_disabled,
    {
        Self {
            enabled: state.feature.enabled,
            keyboard_external_count: state.policy.keyboard_external_count,
            pointing_external_count: state.policy.pointing_external_count,
            keyboard_disabled: state.policy.keyboard_disabled,
            pointing_disabled: state.policy.pointing_disabled,
        }
    }

    /// The status reported while no service has counted any device: the feature switch
    /// alone, no external device, nothing disabled.
    pub fn for_enabled(enabled: bool) -> (s: Self)
        ensures
            s == (StatusSnapshot {
                enabled,
                keyboard_external_count: 0,
                pointing_external_count: 0,
                keyboard_disabled: false,
                pointing_disabled: false,
            }),
    {
        Self {
            enabled,
            keyboard_external_count: 0,
            pointing_external_count: 0,
            keyboard_disabled: false,
            pointing_disabled: false,
        }
    }
}

/// Where the status is written after a write of it: a file whose first write, when it is
/// attached, fails is given up; a later failed write keeps it.
pub fn status_path_after_write(path: Option<String>, first_write: bool, write_ok: bool) -> (r:
    Option<String>)
    ensures
        r == (if first_write && !write_ok {
            None
        } else {
            path
        }),
{
    if first_write && !write_ok {
        None
    } else {
        path
    }
}

} // verus!
