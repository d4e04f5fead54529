use vstd::prelude::*;

use crate::logic::policy::PolicyAction;
use crate::text::{distinct_ids, id_insert, id_remove, lemma_distinct_len, views};

verus! {

#[derive(Debug, Clone, Copy, PartialEq, Eq, Hash, Structural)]
pub enum DeviceType {
    Keyboard,
    Pointing,
}

#[derive(Debug, Clone, Copy, PartialEq, Eq, Hash, Structural)]
pub enum DeviceOrigin {
    Internal,
    External,
}

#[derive(Debug, Clone, Copy, PartialEq, Eq, Hash, Structural)]
pub enum DeviceState {
    Connected,
    Disconnected,
}

/// A device appearing or disappearing, as reported by a platform backend.
#[derive(Debug, Clone, PartialEq, Eq)]
pub struct DeviceEvent {
    pub id: String,
    pub name: String,
    pub device_type: DeviceType,
    pub origin: DeviceOrigin,
    pub state: DeviceState,
}

#[derive(Debug, Clone, PartialEq, Eq, Structural)]
pub struct FeatureState {
    pub enabled: bool,
}

#[derive(Debug, Clone, PartialEq, Eq, Structural)]
pub struct DisablePolicy {
    pub keyboard_external_count: usize,
    pub pointing_external_count: usize,
    pub keyboard_disabled: bool,
    pub pointing_disabled: bool,
}

/// The ids of the external devices currently attached, one list per device type.
/// Each list holds every id at most once. Its contents are reached through the
/// spec functions of `SystemState`.
#[derive(Debug, Clone)]
pub struct DeviceRegistry {
    external_keyboards: Vec<String>,
    external_pointing: Vec<String>,
}

#[derive(Debug, Clone)]
pub struct SystemState {
    pub feature: FeatureState,
    pub policy: DisablePolicy,
    pub registry: DeviceRegistry,
}

/// The action that brings the built-in devices of `ty` to `disabled`.
pub open spec fn action_for(ty: DeviceType, disabled: bool) -> PolicyAction {
    if disabled {
        PolicyAction::Disable(ty)
    } else {
        PolicyAction::Enable(ty)
    }
}

/// No action when the built-in devices of `ty` are already at `target`, else the one that gets them there.
pub open spec fn transition(ty: DeviceType, current: bool, target: bool) -> Seq<PolicyAction> {
    if target != current {
        seq![action_for(ty, target)]
    } else {
        seq![]
    }
}

/// The actions, keyboard first, that move `policy` to the two targets.
pub open spec fn reconcile_actions(
    policy: DisablePolicy,
    keyboard_target: bool,
    pointing_target: bool,
) -> Seq<PolicyAction> {
    transition(DeviceType::Keyboard, policy.keyboard_disabled, keyboard_target) + transition(
        DeviceType::Pointing,
        policy.pointing_disabled,
        pointing_target,
    )
}

/// The set of attached ids after a device with `id` changes to `st`.
pub open spec fn registry_update(set: Set<Seq<char>>, id: Seq<char>, st: DeviceState) -> Set<
    Seq<char>,
> {
    match st {
        DeviceState::Connected => set.insert(id),
        DeviceState::Disconnected => set.remove(id),
    }
}

/// Whether `ev` changes the attached devices of type `ty`.
pub open spec fn event_touches(ev: DeviceEvent, ty: DeviceType) -> bool {
    ev.origin == DeviceOrigin::External && ev.device_type == ty
}

/// `post` and `actions` are what `pre.set_enabled(enabled)` leaves and returns.
pub open spec fn enable_step(
    pre: SystemState,
    enabled: bool,
    post: SystemState,
    actions: Seq<PolicyAction>,
) -> bool {
    &&& post.feature.enabled == enabled
    &&& post.external_keyboards() == pre.external_keyboards()
    &&& post.external_pointing() == pre.external_pointing()
    &&& post.policy.keyboard_external_count == pre.policy.keyboard_external_count
    &&& post.policy.pointing_external_count == pre.policy.pointing_external_count
    &&& post.policy.keyboard_disabled == post.keyboard_target()
    &&& post.policy.pointing_disabled == post.pointing_target()
    &&& actions == reconcile_actions(pre.policy, post.keyboard_target(), post.pointing_target())
}

/// `post` and `actions` are what `pre.apply_event(&ev)` leaves and returns.
pub open spec fn event_step(
    pre: SystemState,
    ev: DeviceEvent,
    post: SystemState,
    actions: Seq<PolicyAction>,
) -> bool {
    &&& post.feature == pre.feature
    &&& post.external_keyboards() == (if event_touches(ev, DeviceType::Keyboard) {
        registry_update(pre.external_keyboards(), ev.id@, ev.state)
    } else {
        pre.external_keyboards()
    })
    &&& post.external_pointing() == (if event_touches(ev, DeviceType::Pointing) {
        registry_update(pre.external_pointing(), ev.id@, ev.state)
    } else {
        pre.external_pointing()
    })
    &&& ev.origin == DeviceOrigin::External ==> {
        &&& post.policy.keyboard_external_count == post.external_keyboards().len()
        &&& post.policy.pointing_external_count == post.external_pointing().len()
    }
    &&& ev.origin != DeviceOrigin::External ==> {
        &&& post.policy.keyboard_external_count == pre.policy.keyboard_external_count
        &&& post.policy.pointing_external_count == pre.policy.pointing_external_count
    }
    &&& post.policy.keyboard_disabled == post.keyboard_target()
    &&& post.policy.pointing_disabled == post.pointing_target()
    &&& actions == reconcile_actions(pre.policy, post.keyboard_target(), post.pointing_target())
}

impl SystemState {
    /// The ids of the external keyboards currently attached.
    pub closed spec fn external_keyboards(&self) -> Set<Seq<char>> {
        views(self.registry.external_keyboards@).to_set()
    }

    /// The ids of the external pointing devices currently attached.
    pub closed spec fn external_pointing(&self) -> Set<Seq<char>> {
        views(self.registry.external_pointing@).to_set()
    }

    /// The attached ids of type `ty`.
    pub open spec fn attached(&self, ty: DeviceType) -> Set<Seq<char>> {
        match ty {
            DeviceType::Keyboard => self.external_keyboards(),
            DeviceType::Pointing => self.external_pointing(),
        }
    }

    /// The registry holds each id at most once.
    pub closed spec fn inv(&self) -> bool {
        &&& distinct_ids(self.registry.external_keyboards@)
        &&& distinct_ids(self.registry.external_pointing@)
    }

    /// The counts are the numbers of attached devices, and each built-in device type is
    /// disabled exactly when the feature is on and an external device of that type is attached.
    pub open spec fn consistent(&self) -> bool {
        &&& self.external_keyboards().finite()
        &&& self.external_pointing().finite()
        &&& self.policy.keyboard_external_count == self.external_keyboards().len()
        &&& self.policy.pointing_external_count == self.external_pointing().len()
        &&& self.policy.keyboard_disabled == self.keyboard_target()
        &&& self.policy.pointing_disabled == self.pointing_target()
    }

    /// Whether the built-in keyboard should be disabled, judged by the counts.
    pub open spec fn keyboard_target(&self) -> bool {
        self.feature.enabled && self.policy.keyboard_external_count > 0
    }

    /// Whether the built-in pointing devices should be disabled, judged by the counts.
    pub open spec fn pointing_target(&self) -> bool {
        self.feature.enabled && self.policy.pointing_external_count > 0
    }

    proof fn lemma_counts(&self)
        requires
            self.inv(),
        ensures
            self.external_keyboards().finite(),
            self.external_pointing().finite(),
            self.external_keyboards().len() == self.registry.external_keyboards.len(),
            self.external_pointing().len() == self.registry.external_pointing.len(),
    {
        lemma_distinct_len(self.registry.external_keyboards@);
        lemma_distinct_len(self.registry.external_pointing@);
    }

    pub fn new(enabled: bool) -> (s: Self)
        ensures
            s.inv(),
            s.consistent(),
            s.feature.enabled == enabled,
            s.policy == (DisablePolicy {
                keyboard_external_count: 0,
                pointing_external_count: 0,
                keyboard_disabled: false,
                pointing_disabled: false,
            }),
            s.external_keyboards() == Set::<Seq<char>>::empty(),
            s.external_pointing() == Set::<Seq<char>>::empty(),
    {
        let s = Self {
            feature: FeatureState { enabled },
            policy: DisablePolicy {
                keyboard_external_count: 0,
                pointing_external_count: 0,
                keyboard_disabled: false,
                pointing_disabled: false,
            },
            registry: DeviceRegistry { external_keyboards: Vec::new(), external_pointing: Vec::new() },
        };
        assert(views(s.registry.external_keyboards@).to_set() =~= Set::<Seq<char>>::empty());
        assert(views(s.registry.external_pointing@).to_set() =~= Set::<Seq<char>>::empty());
        s
    }

    /// Turns the feature on or off and returns the actions that bring the built-in
    /// devices in line with it.
    pub fn set_enabled(&mut self, enabled: bool) -> (actions: Vec<PolicyAction>)
        requires
            old(self).inv(),
        ensures
            final(self).inv(),
            enable_step(*old(self), enabled, *final(self), actions@),
    {
        self.feature.enabled = enabled;
        let target_keyboard = enabled && self.policy.keyboard_external_count > 0;
        let target_pointing = enabled && self.policy.pointing_external_count > 0;
        self.compute_actions(target_keyboard, target_pointing)
    }

    /// Records a device change and returns the actions that bring the built-in devices
    /// in line with it. Internal devices change nothing but the actions.
    pub fn apply_event(&mut self, event: &DeviceEvent) -> (actions: Vec<PolicyAction>)
        requires
            old(self).inv(),
        ensures
            final(self).inv(),
            event_step(*old(self), *event, *final(self), actions@),
    {
        if event.origin == DeviceOrigin::External {
            match (event.device_type, event.state) {
                (DeviceType::Keyboard, DeviceState::Connected) => {
                    id_insert(&mut self.registry.external_keyboards, &event.id);
                },
                (DeviceType::Keyboard, DeviceState::Disconnected) => {
                    id_remove(&mut self.registry.external_keyboards, &event.id);
                },
                (DeviceType::Pointing, DeviceState::Connected) => {
                    id_insert(&mut self.registry.external_pointing, &event.id);
                },
                (DeviceType::Pointing, DeviceState::Disconnected) => {
                    id_remove(&mut self.registry.external_pointing, &event.id);
                },
            }
            proof {
                self.lemma_counts();
            }
            self.policy.keyboard_external_count = self.registry.external_keyboards.len();
            self.policy.pointing_external_count = self.registry.external_pointing.len();
        }
        let target_keyboard = self.feature.enabled && self.policy.keyboard_external_count > 0;
        let target_pointing = self.feature.enabled && self.policy.pointing_external_count > 0;
        self.compute_actions(target_keyboard, target_pointing)
    }

    fn compute_actions(&mut self, target_keyboard: bool, target_pointing: bool) -> (actions: Vec<
        PolicyAction,
    >)
        ensures
            final(self).feature == old(self).feature,
            final(self).registry == old(self).registry,
            final(self).policy.keyboard_external_count == old(self).policy.keyboard_external_count,
            final(self).policy.pointing_external_count == old(self).policy.pointing_external_count,
            final(self).policy.keyboard_disabled == target_keyboard,
            final(self).policy.pointing_disabled == target_pointing,
            actions@ == reconcile_actions(old(self).policy, target_keyboard, target_pointing),
    {
        let mut actions: Vec<PolicyAction> = Vec::new();
        if target_keyboard != self.policy.keyboard_disabled {
            self.policy.keyboard_disabled = target_keyboard;
            actions.push(
                if target_keyboard {
                    PolicyAction::Disable(DeviceType::Keyboard)
                } else {
                    PolicyAction::Enable(DeviceType::Keyboard)
                },
            );
        }
        if target_pointing != self.policy.pointing_disabled {
            self.policy.pointing_disabled = target_pointing;
            actions.push(
                if target_pointing {
                    PolicyAction::Disable(DeviceType::Pointing)
                } else {
                    PolicyAction::Enable(DeviceType::Pointing)
                },
            );
        }
        assert(actions@ =~= reconcile_actions(old(self).policy, target_keyboard, target_pointing));
        actions
    }
}

} // verus!
