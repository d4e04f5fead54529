use vstd::prelude::*;

use crate::logic::state::DeviceType;

verus! {

/// What the platform backend is asked to do with the built-in devices of one type.
#[derive(Debug, Clone, Copy, PartialEq, Eq, Structural)]
pub enum PolicyAction {
    Disable(DeviceType),
    Enable(DeviceType),
}

} // verus!
