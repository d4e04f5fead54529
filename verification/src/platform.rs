//! The boundary between the state machine and the machine it runs on.

use vstd::prelude::*;

use crate::logic::policy::PolicyAction;
use crate::logic::state::DeviceEvent;

pub mod linux;

verus! {

/// An error raised by a platform backend.
#[verifier::external_type_specification]
#[verifier::external_body]
pub struct ExAnyhowError(anyhow::Error);

/// What a platform offers the service: the devices present at start, the device
/// changes that follow, and the means to disable or enable built-in devices.
/// Each platform, and each test double, implements it.
pub trait PlatformBackend {
    /// Every action handed to this backend's `apply_action` so far, in order.
    closed spec fn applied(&self) -> Seq<PolicyAction> {
        Seq::empty()
    }

    fn scan_devices(&mut self) -> (r: anyhow::Result<Vec<DeviceEvent>>)
        ensures
            final(self).applied() == old(self).applied(),
    ;

    fn next_event(&mut self) -> (r: anyhow::Result<DeviceEvent>)
        ensures
            final(self).applied() == old(self).applied(),
    ;

    /// Disables or enables built-in devices as `action` says; the action is recorded as
    /// handed over whether or not the backend carries it out.
    fn apply_action(&mut self, action: PolicyAction) -> (r: anyhow::Result<()>)
        ensures
            final(self).applied() == old(self).applied().push(action),
    ;
}

} // verus!
