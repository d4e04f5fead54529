//! Properties that hold of every run of the device-state machine.

use vstd::prelude::*;

use crate::logic::policy::PolicyAction;
use crate::logic::state::{
    action_for, enable_step, event_step, event_touches, reconcile_actions, transition, DeviceEvent, DeviceOrigin,
    DeviceState, DeviceType, DisablePolicy, SystemState,
};

verus! {

broadcast use vstd::set::group_set_axioms;

/// The actions of one step never contain both the enabling and the disabling of one type,
/// and hold an action for `ty` exactly when that type's state flips.
proof fn lemma_reconcile_members(policy: DisablePolicy, kt: bool, pt: bool)
    ensures
        reconcile_actions(policy, kt, pt).contains(PolicyAction::Disable(DeviceType::Keyboard))
            <==> (kt && !policy.keyboard_disabled),
        reconcile_actions(policy, kt, pt).contains(PolicyAction::Enable(DeviceType::Keyboard))
            <==> (!kt && policy.keyboard_disabled),
        reconcile_actions(policy, kt, pt).contains(PolicyAction::Disable(DeviceType::Pointing))
            <==> (pt && !policy.pointing_disabled),
        reconcile_actions(policy, kt, pt).contains(PolicyAction::Enable(DeviceType::Pointing))
            <==> (!pt && policy.pointing_disabled),
{
    let a = transition(DeviceType::Keyboard, policy.keyboard_disabled, kt);
    let b = transition(DeviceType::Pointing, policy.pointing_disabled, pt);
    let r = reconcile_actions(policy, kt, pt);
    assert(r == a + b);
    assert forall|x: PolicyAction| r.contains(x) <==> (a.contains(x) || b.contains(x)) by {
        if r.contains(x) {
            let k = choose|k: int| 0 <= k < r.len() && r[k] == x;
            if k < a.len() {
                assert(a[k] == x);
            } else {
                assert(b[k - a.len()] == x);
            }
        }
        if a.contains(x) {
            let k = choose|k: int| 0 <= k < a.len() && a[k] == x;
            assert(r[k] == x);
        }
        if b.contains(x) {
            let k = choose|k: int| 0 <= k < b.len() && b[k] == x;
            assert(r[k + a.len()] == x);
        }
    }
    if kt != policy.keyboard_disabled {
        assert(a[0] == action_for(DeviceType::Keyboard, kt));
    }
    if pt != policy.pointing_disabled {
        assert(b[0] == action_for(DeviceType::Pointing, pt));
    }
}

/// Consistency is kept by every device event: the counts match the attached devices and
/// each built-in type is disabled exactly when the feature is on and an external device
/// of that type is attached.
pub proof fn lemma_event_keeps_consistency(
    pre: SystemState,
    ev: DeviceEvent,
    post: SystemState,
    actions: Seq<PolicyAction>,
)
    requires
        pre.consistent(),
        event_step(pre, ev, post, actions),
    ensures
        post.consistent(),
{
}

/// Consistency is kept by turning the feature on or off.
pub proof fn lemma_enable_keeps_consistency(
    pre: SystemState,
    enabled: bool,
    post: SystemState,
    actions: Seq<PolicyAction>,
)
    requires
        pre.consistent(),
        enable_step(pre, enabled, post, actions),
    ensures
        post.consistent(),
{
}

/// In a consistent state the built-in devices of a type are disabled exactly when the
/// feature is on and at least one external device of that type is attached.
pub proof fn lemma_disabled_iff_external_attached(s: SystemState)
    requires
        s.consistent(),
    ensures
        s.policy.keyboard_disabled <==> (s.feature.enabled && !s.external_keyboards().is_empty()),
        s.policy.pointing_disabled <==> (s.feature.enabled && !s.external_pointing().is_empty()),
{
    if s.external_keyboards().is_empty() {
        assert(s.external_keyboards() =~= Set::<Seq<char>>::empty());
    } else {
        let x = s.external_keyboards().choose();
        assert(s.external_keyboards().contains(x));
    }
    if s.external_pointing().is_empty() {
        assert(s.external_pointing() =~= Set::<Seq<char>>::empty());
    } else {
        let x = s.external_pointing().choose();
        assert(s.external_pointing().contains(x));
    }
}

/// With the feature on, attaching an external keyboard disables the built-in keyboard
/// exactly when no external keyboard was attached before.
pub proof fn lemma_first_keyboard_disables(
    pre: SystemState,
    ev: DeviceEvent,
    post: SystemState,
    actions: Seq<PolicyAction>,
)
    requires
        pre.consistent(),
        event_step(pre, ev, post, actions),
        ev.origin == DeviceOrigin::External,
        ev.device_type == DeviceType::Keyboard,
        ev.state == DeviceState::Connected,
    ensures
        actions.contains(PolicyAction::Disable(DeviceType::Keyboard)) <==> (pre.feature.enabled
            && pre.external_keyboards().is_empty()),
        post.policy.keyboard_disabled == pre.feature.enabled,
{
    lemma_reconcile_members(pre.policy, post.keyboard_target(), post.pointing_target());
    lemma_disabled_iff_external_attached(pre);
    assert(post.external_keyboards().contains(ev.id@));
    assert(post.external_keyboards().len() > 0);
}

/// With several external keyboards attached, detaching one re-enables the built-in
/// keyboard only when it was the last one.
pub proof fn lemma_last_keyboard_enables(
    pre: SystemState,
    ev: DeviceEvent,
    post: SystemState,
    actions: Seq<PolicyAction>,
)
    requires
        pre.consistent(),
        event_step(pre, ev, post, actions),
        ev.origin == DeviceOrigin::External,
        ev.device_type == DeviceType::Keyboard,
        ev.state == DeviceState::Disconnected,
    ensures
        actions.contains(PolicyAction::Enable(DeviceType::Keyboard)) <==> (pre.feature.enabled
            && pre.external_keyboards() == set![ev.id@]),
{
    lemma_reconcile_members(pre.policy, post.keyboard_target(), post.pointing_target());
    lemma_disabled_iff_external_attached(pre);
    lemma_disabled_iff_external_attached(post);
    let kb = pre.external_keyboards();
    if kb == set![ev.id@] {
        assert(kb.remove(ev.id@) =~= Set::<Seq<char>>::empty());
        assert(kb.contains(ev.id@));
    }
    if !kb.is_empty() && kb.remove(ev.id@).is_empty() {
        assert(kb =~= set![ev.id@]) by {
            assert forall|x: Seq<char>| kb.contains(x) <==> set![ev.id@].contains(x) by {
                if kb.contains(x) && x != ev.id@ {
                    assert(kb.remove(ev.id@).contains(x));
                }
                if x == ev.id@ {
                    let y = kb.choose();
                    assert(kb.contains(y));
                    if y != ev.id@ {
                        assert(kb.remove(ev.id@).contains(y));
                    }
                }
            }
        }
    }
}

/// A keyboard event leaves everything about pointing devices alone, and a pointing
/// event leaves everything about keyboards alone.
pub proof fn lemma_types_are_independent(
    pre: SystemState,
    ev: DeviceEvent,
    post: SystemState,
    actions: Seq<PolicyAction>,
)
    requires
        pre.consistent(),
        event_step(pre, ev, post, actions),
    ensures
        ev.device_type == DeviceType::Keyboard ==> {
            &&& post.external_pointing() == pre.external_pointing()
            &&& post.policy.pointing_external_count == pre.policy.pointing_external_count
            &&& post.policy.pointing_disabled == pre.policy.pointing_disabled
            &&& !actions.contains(PolicyAction::Disable(DeviceType::Pointing))
            &&& !actions.contains(PolicyAction::Enable(DeviceType::Pointing))
        },
        ev.device_type == DeviceType::Pointing ==> {
            &&& post.external_keyboards() == pre.external_keyboards()
            &&& post.policy.keyboard_external_count == pre.policy.keyboard_external_count
            &&& post.policy.keyboard_disabled == pre.policy.keyboard_disabled
            &&& !actions.contains(PolicyAction::Disable(DeviceType::Keyboard))
            &&& !actions.contains(PolicyAction::Enable(DeviceType::Keyboard))
        },
{
    lemma_reconcile_members(pre.policy, post.keyboard_target(), post.pointing_target());
}

/// Built-in devices are never an external device: an event of an internal device,
/// from a consistent state, changes nothing and asks for nothing.
pub proof fn lemma_internal_events_change_nothing(
    pre: SystemState,
    ev: DeviceEvent,
    post: SystemState,
    actions: Seq<PolicyAction>,
)
    requires
        pre.consistent(),
        event_step(pre, ev, post, actions),
        ev.origin == DeviceOrigin::Internal,
    ensures
        post.policy == pre.policy,
        post.feature == pre.feature,
        post.external_keyboards() == pre.external_keyboards(),
        post.external_pointing() == pre.external_pointing(),
        actions == Seq::<PolicyAction>::empty(),
{
    assert(actions =~= Seq::<PolicyAction>::empty());
}

/// While the feature is off no device is ever disabled: turning it off re-enables every
/// disabled type, and no device event then asks for a disable.
pub proof fn lemma_feature_off_restores(
    pre: SystemState,
    post: SystemState,
    actions: Seq<PolicyAction>,
)
    requires
        enable_step(pre, false, post, actions),
    ensures
        !post.policy.keyboard_disabled,
        !post.policy.pointing_disabled,
        actions.contains(PolicyAction::Enable(DeviceType::Keyboard))
            <==> pre.policy.keyboard_disabled,
        actions.contains(PolicyAction::Enable(DeviceType::Pointing))
            <==> pre.policy.pointing_disabled,
        !actions.contains(PolicyAction::Disable(DeviceType::Keyboard)),
        !actions.contains(PolicyAction::Disable(DeviceType::Pointing)),
{
    lemma_reconcile_members(pre.policy, post.keyboard_target(), post.pointing_target());
}

/// The disables that bring the built-in devices in line when the feature is turned on
/// over the external devices attached in `s`: the built-in keyboard when an external
/// keyboard is attached, then the built-in pointing devices when an external pointing
/// device is.
pub open spec fn disables_on_enable(s: SystemState) -> Seq<PolicyAction> {
    (if s.external_keyboards().is_empty() {
        Seq::empty()
    } else {
        seq![PolicyAction::Disable(DeviceType::Keyboard)]
    }) + (if s.external_pointing().is_empty() {
        Seq::empty()
    } else {
        seq![PolicyAction::Disable(DeviceType::Pointing)]
    })
}

/// Turning the feature on from a consistent state in which it was off gives exactly one
/// disable per device type that has an external device attached, keyboard first, and
/// nothing else.
pub proof fn lemma_enabling_disables_each_covered_type(
    pre: SystemState,
    post: SystemState,
    actions: Seq<PolicyAction>,
)
    requires
        pre.consistent(),
        !pre.feature.enabled,
        enable_step(pre, true, post, actions),
    ensures
        actions == disables_on_enable(pre),
{
    lemma_disabled_iff_external_attached(pre);
    lemma_disabled_iff_external_attached_counts(pre);
    assert(actions =~= disables_on_enable(pre));
}

/// In a consistent state the count of a type is positive exactly when an external device
/// of that type is attached.
proof fn lemma_disabled_iff_external_attached_counts(s: SystemState)
    requires
        s.consistent(),
    ensures
        s.policy.keyboard_external_count > 0 <==> !s.external_keyboards().is_empty(),
        s.policy.pointing_external_count > 0 <==> !s.external_pointing().is_empty(),
{
    if s.external_keyboards().is_empty() {
        assert(s.external_keyboards() =~= Set::<Seq<char>>::empty());
    } else {
        let x = s.external_keyboards().choose();
        assert(s.external_keyboards().contains(x));
    }
    if s.external_pointing().is_empty() {
        assert(s.external_pointing() =~= Set::<Seq<char>>::empty());
    } else {
        let x = s.external_pointing().choose();
        assert(s.external_pointing().contains(x));
    }
}

/// While the feature is off, device events never disable anything.
pub proof fn lemma_feature_off_blocks_disable(
    pre: SystemState,
    ev: DeviceEvent,
    post: SystemState,
    actions: Seq<PolicyAction>,
)
    requires
        !pre.feature.enabled,
        event_step(pre, ev, post, actions),
    ensures
        !post.policy.keyboard_disabled,
        !post.policy.pointing_disabled,
        !actions.contains(PolicyAction::Disable(DeviceType::Keyboard)),
        !actions.contains(PolicyAction::Disable(DeviceType::Pointing)),
{
    lemma_reconcile_members(pre.policy, post.keyboard_target(), post.pointing_target());
}

/// Attaching an external device that was not attached, then detaching it, brings back
/// the attached sets and the policy that were there before.
pub proof fn lemma_connect_then_disconnect_restores(
    s0: SystemState,
    connect: DeviceEvent,
    s1: SystemState,
    a1: Seq<PolicyAction>,
    disconnect: DeviceEvent,
    s2: SystemState,
    a2: Seq<PolicyAction>,
)
    requires
        s0.consistent(),
        connect.origin == DeviceOrigin::External,
        connect.state == DeviceState::Connected,
        disconnect.origin == DeviceOrigin::External,
        disconnect.state == DeviceState::Disconnected,
        disconnect.device_type == connect.device_type,
        disconnect.id@ == connect.id@,
        !s0.attached(connect.device_type).contains(connect.id@),
        event_step(s0, connect, s1, a1),
        event_step(s1, disconnect, s2, a2),
    ensures
        s2.external_keyboards() == s0.external_keyboards(),
        s2.external_pointing() == s0.external_pointing(),
        s2.policy == s0.policy,
        s2.feature == s0.feature,
{
    let id = connect.id@;
    match connect.device_type {
        DeviceType::Keyboard => {
            assert(s0.external_keyboards().insert(id).remove(id) =~= s0.external_keyboards());
        },
        DeviceType::Pointing => {
            assert(s0.external_pointing().insert(id).remove(id) =~= s0.external_pointing());
        },
    }
}

/// Reporting the same attachment twice is harmless: the second report changes nothing
/// and asks for nothing.
pub proof fn lemma_repeated_connect_is_idle(
    s0: SystemState,
    ev: DeviceEvent,
    s1: SystemState,
    a1: Seq<PolicyAction>,
    s2: SystemState,
    a2: Seq<PolicyAction>,
)
    requires
        s0.consistent(),
        ev.state == DeviceState::Connected,
        event_step(s0, ev, s1, a1),
        event_step(s1, ev, s2, a2),
    ensures
        s2.external_keyboards() == s1.external_keyboards(),
        s2.external_pointing() == s1.external_pointing(),
        s2.policy == s1.policy,
        a2 == Seq::<PolicyAction>::empty(),
{
    if event_touches(ev, DeviceType::Keyboard) {
        assert(s1.external_keyboards().contains(ev.id@));
        assert(s1.external_keyboards().insert(ev.id@) =~= s1.external_keyboards());
    }
    if event_touches(ev, DeviceType::Pointing) {
        assert(s1.external_pointing().contains(ev.id@));
        assert(s1.external_pointing().insert(ev.id@) =~= s1.external_pointing());
    }
    lemma_event_keeps_consistency(s0, ev, s1, a1);
    assert(a2 =~= Seq::<PolicyAction>::empty());
}

} // verus!
