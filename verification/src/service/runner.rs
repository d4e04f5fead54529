use vstd::prelude::*;

use crate::config::config::Config;
use crate::logic::policy::PolicyAction;
use crate::logic::state::{
    enable_step, event_step, event_touches, reconcile_actions, registry_update, DeviceEvent,
    DeviceType, DisablePolicy, SystemState,
};
use crate::logic::laws::disables_on_enable;
use crate::platform::PlatformBackend;
use crate::service::status::StatusSnapshot;

verus! {

/// A state as `SystemState::new(enabled)` builds it: feature as given, nothing attached,
/// nothing disabled.
pub open spec fn fresh_state(s: SystemState, enabled: bool) -> bool {
    &&& s.inv()
    &&& s.feature.enabled == enabled
    &&& s.policy == (DisablePolicy {
        keyboard_external_count: 0,
        pointing_external_count: 0,
        keyboard_disabled: false,
        pointing_disabled: false,
    })
    &&& s.external_keyboards() == Set::<Seq<char>>::empty()
    &&& s.external_pointing() == Set::<Seq<char>>::empty()
}

/// The actions the state machine emits when it goes from `pre` to `post`.
pub open spec fn step_actions(pre: SystemState, post: SystemState) -> Seq<PolicyAction> {
    reconcile_actions(pre.policy, post.keyboard_target(), post.pointing_target())
}

/// `post` is what the state machine leaves when it takes the event `ev` in `pre`.
pub open spec fn event_leads(pre: SystemState, ev: DeviceEvent, post: SystemState) -> bool {
    event_step(pre, ev, post, step_actions(pre, post))
}

/// The actions emitted along a run of states, step after step.
pub open spec fn run_actions(states: Seq<SystemState>) -> Seq<PolicyAction>
    decreases states.len(),
{
    if states.len() <= 1 {
        Seq::empty()
    } else {
        run_actions(states.drop_last()) + step_actions(states[states.len() - 2], states.last())
    }
}

/// `states` is a run of the events `evs` from a fresh state with the feature switch at
/// `enabled` that ends in `end`, and `log` holds the actions emitted along it, in order.
pub open spec fn run_with_actions(
    enabled: bool,
    evs: Seq<DeviceEvent>,
    states: Seq<SystemState>,
    end: SystemState,
    log: Seq<PolicyAction>,
) -> bool {
    &&& is_run(enabled, evs, states)
    &&& states.last() == end
    &&& log == run_actions(states)
}

/// `log` is `before` followed by the first `k` of `acts`, for some `k` from 1 on: the
/// backend was handed those and refused the last of them.
pub open spec fn partly_handed(before: Seq<PolicyAction>, acts: Seq<PolicyAction>, log: Seq<
    PolicyAction,
>) -> bool {
    exists|k: int| 1 <= k <= acts.len() && log == before + #[trigger] acts.subrange(0, k)
}

/// `states` are the states the state machine passes through when it runs the events `evs`,
/// in order, from a fresh state with the feature switch at `enabled`: one more state than
/// events, the first fresh, each next one what the event between them leads to.
pub open spec fn is_run(enabled: bool, evs: Seq<DeviceEvent>, states: Seq<SystemState>) -> bool {
    &&& states.len() == evs.len() + 1
    &&& fresh_state(states[0], enabled)
    &&& forall|k: int|
        #![trigger evs[k]]
        0 <= k < evs.len() ==> event_leads(states[k], evs[k], states[k + 1])
}

/// The ids of the external devices of type `ty` that the events `evs` leave attached, in
/// order: a connect adds the id, a disconnect removes it, and events of internal devices
/// or of the other type change nothing.
pub open spec fn connected_ids(evs: Seq<DeviceEvent>, ty: DeviceType) -> Set<Seq<char>>
    decreases evs.len(),
{
    if evs.len() == 0 {
        Set::empty()
    } else {
        let prev = connected_ids(evs.drop_last(), ty);
        if event_touches(evs.last(), ty) {
            registry_update(prev, evs.last().id@, evs.last().state)
        } else {
            prev
        }
    }
}

/// After any sequence of device events from a fresh start, the state is consistent; the
/// external devices of each type it holds attached are those the events left connected,
/// and each count is their number.
pub proof fn lemma_run_counts_connected(
    enabled: bool,
    evs: Seq<DeviceEvent>,
    states: Seq<SystemState>,
)
    requires
        is_run(enabled, evs, states),
    ensures
        states.last().consistent(),
        states.last().feature.enabled == enabled,
        states.last().attached(DeviceType::Keyboard) == connected_ids(evs, DeviceType::Keyboard),
        states.last().attached(DeviceType::Pointing) == connected_ids(evs, DeviceType::Pointing),
        states.last().policy.keyboard_external_count == connected_ids(
            evs,
            DeviceType::Keyboard,
        ).len(),
        states.last().policy.pointing_external_count == connected_ids(
            evs,
            DeviceType::Pointing,
        ).len(),
    decreases evs.len(),
{
    if evs.len() > 0 {
        let n = evs.len() as int;
        let pe = evs.drop_last();
        let ps = states.drop_last();
        assert forall|k: int| #![trigger pe[k]] 0 <= k < pe.len() implies event_leads(
            ps[k],
            pe[k],
            ps[k + 1],
        ) by {
            assert(pe[k] == evs[k]);
        }
        assert(is_run(enabled, pe, ps));
        lemma_run_counts_connected(enabled, pe, ps);
        let pre = states[n - 1];
        let post = states[n];
        assert(evs[n - 1] == evs.last());
        assert(event_leads(pre, evs[n - 1], post));
        assert(ps.last() == pre);
        crate::logic::laws::lemma_event_keeps_consistency(pre, evs.last(), post, step_actions(pre, post));
    }
}

/// Starting with the feature off over the devices `evs` and then turning it on disables
/// the built-in keyboard when the devices left an external keyboard connected, then the
/// built-in pointing devices when they left an external pointing device connected, and
/// nothing else.
pub proof fn lemma_enable_after_start_disables_connected(
    evs: Seq<DeviceEvent>,
    states: Seq<SystemState>,
    post: SystemState,
)
    requires
        is_run(false, evs, states),
        enable_step(states.last(), true, post, step_actions(states.last(), post)),
    ensures
        step_actions(states.last(), post) == (if connected_ids(evs, DeviceType::Keyboard).is_empty() {
            Seq::<PolicyAction>::empty()
        } else {
            seq![PolicyAction::Disable(DeviceType::Keyboard)]
        }) + (if connected_ids(evs, DeviceType::Pointing).is_empty() {
            Seq::<PolicyAction>::empty()
        } else {
            seq![PolicyAction::Disable(DeviceType::Pointing)]
        }),
{
    lemma_run_counts_connected(false, evs, states);
    crate::logic::laws::lemma_enabling_disables_each_covered_type(
        states.last(),
        post,
        step_actions(states.last(), post),
    );
}

/// One step of the state machine: a device event, or turning the feature on or off.
pub ghost enum MachineStep {
    Event(DeviceEvent),
    Switch(bool),
}

/// `post` is what the state machine leaves when it takes the step `st` in `pre`.
pub open spec fn step_leads(pre: SystemState, st: MachineStep, post: SystemState) -> bool {
    match st {
        MachineStep::Event(ev) => event_leads(pre, ev, post),
        MachineStep::Switch(enabled) => enable_step(pre, enabled, post, step_actions(pre, post)),
    }
}

/// `states` are the states the state machine passes through when it takes the steps
/// `steps`, device events and feature switches in any order, from a fresh state with the
/// feature switch at `enabled`.
pub open spec fn is_mixed_run(enabled: bool, steps: Seq<MachineStep>, states: Seq<SystemState>) -> bool {
    &&& states.len() == steps.len() + 1
    &&& fresh_state(states[0], enabled)
    &&& forall|k: int|
        #![trigger steps[k]]
        0 <= k < steps.len() ==> step_leads(states[k], steps[k], states[k + 1])
}

/// The device events among `steps`, in order.
pub open spec fn step_events(steps: Seq<MachineStep>) -> Seq<DeviceEvent>
    decreases steps.len(),
{
    if steps.len() == 0 {
        Seq::empty()
    } else {
        step_events(steps.drop_last()) + match steps.last() {
            MachineStep::Event(ev) => seq![ev],
            MachineStep::Switch(_) => Seq::empty(),
        }
    }
}

/// After any sequence of device events and feature switches from a fresh start, the
/// state is consistent; the external devices of each type it holds attached are those
/// the device events left connected, and each count is their number. Switching the
/// feature changes no count.
pub proof fn lemma_mixed_run_counts_connected(
    enabled: bool,
    steps: Seq<MachineStep>,
    states: Seq<SystemState>,
)
    requires
        is_mixed_run(enabled, steps, states),
    ensures
        states.last().consistent(),
        states.last().attached(DeviceType::Keyboard) == connected_ids(
            step_events(steps),
            DeviceType::Keyboard,
        ),
        states.last().attached(DeviceType::Pointing) == connected_ids(
            step_events(steps),
            DeviceType::Pointing,
        ),
        states.last().policy.keyboard_external_count == connected_ids(
            step_events(steps),
            DeviceType::Keyboard,
        ).len(),
        states.last().policy.pointing_external_count == connected_ids(
            step_events(steps),
            DeviceType::Pointing,
        ).len(),
    decreases steps.len(),
{
    if steps.len() > 0 {
        let n = steps.len() as int;
        let ps = steps.drop_last();
        let pst = states.drop_last();
        assert forall|k: int| #![trigger ps[k]] 0 <= k < ps.len() implies step_leads(
            pst[k],
            ps[k],
            pst[k + 1],
        ) by {
            assert(ps[k] == steps[k]);
        }
        assert(is_mixed_run(enabled, ps, pst));
        lemma_mixed_run_counts_connected(enabled, ps, pst);
        let pre = states[n - 1];
        let post = states[n];
        assert(steps[n - 1] == steps.last());
        assert(step_leads(pre, steps[n - 1], post));
        assert(pst.last() == pre);
        match steps.last() {
            MachineStep::Event(ev) => {
                let evs = step_events(steps);
                assert(evs == step_events(ps).push(ev)) by {
                    assert(seq![ev] =~= Seq::empty().push(ev));
                    assert(step_events(ps) + seq![ev] =~= step_events(ps).push(ev));
                }
                assert(evs.drop_last() =~= step_events(ps));
                assert(evs.last() == ev);
                crate::logic::laws::lemma_event_keeps_consistency(pre, ev, post, step_actions(pre, post));
            },
            MachineStep::Switch(b) => {
                assert(step_events(steps) =~= step_events(ps));
                crate::logic::laws::lemma_enable_keeps_consistency(pre, b, post, step_actions(pre, post));
            },
        }
    }
}

/// Drives a platform backend with the device-state machine: every device change it
/// reports goes through the state machine, and every action that comes out is handed
/// back to the backend.
pub struct Runner<B: PlatformBackend> {
    backend: B,
    state: SystemState,
    /// Every action handed to the backend's `apply_action`, in order.
    handed: Ghost<Seq<PolicyAction>>,
    /// The devices the backend reported at start.
    scanned: Ghost<Seq<DeviceEvent>>,
    /// The states the state machine passed through while the runner was built.
    start_run: Ghost<Seq<SystemState>>,
}

impl<B: PlatformBackend> Runner<B> {
    /// The state machine held by the runner.
    pub closed spec fn state_view(&self) -> SystemState {
        self.state
    }

    /// The backend held by the runner.
    pub closed spec fn backend_view(&self) -> B {
        self.backend
    }

    /// Every action handed to the backend so far, in order, refused ones included.
    pub closed spec fn handed_view(&self) -> Seq<PolicyAction> {
        self.handed@
    }

    /// The devices the backend reported when the runner was built.
    pub closed spec fn scanned_view(&self) -> Seq<DeviceEvent> {
        self.scanned@
    }

    /// The states the state machine passed through while the runner was built, from the
    /// fresh state to the one the runner started with.
    pub closed spec fn start_run_view(&self) -> Seq<SystemState> {
        self.start_run@
    }

    /// The held state machine is well formed and consistent.
    pub open spec fn inv(&self) -> bool {
        self.state_view().inv() && self.state_view().consistent()
    }

    /// Builds a runner over `backend`: every device the backend finds at start goes
    /// through the state machine, in the order found, and the resulting actions go to
    /// the backend.
    pub fn new(mut backend: B, enabled: bool) -> (r: anyhow::Result<Self>)
        ensures
            r matches Ok(runner) ==> runner.inv() && runner.state_view().feature.enabled
                == enabled,
            r matches Ok(runner) ==> run_with_actions(
                enabled,
                runner.scanned_view(),
                runner.start_run_view(),
                runner.state_view(),
                runner.handed_view(),
            ),
            r matches Ok(runner) ==> runner.backend_view().applied() == backend.applied()
                + runner.handed_view(),
    {
        let ghost start = backend.applied();
        let mut state = SystemState::new(enabled);
        let devices = backend.scan_devices()?;
        let mut i: usize = 0;
        let ghost mut states: Seq<SystemState> = seq![state];
        let mut handed: Ghost<Seq<PolicyAction>> = Ghost(Seq::empty());
        assert(devices@.subrange(0, 0) =~= Seq::<DeviceEvent>::empty());
        while i < devices.len()
            invariant
                i <= devices.len(),
                state.inv(),
                state.consistent(),
                state.feature.enabled == enabled,
                is_run(enabled, devices@.subrange(0, i as int), states),
                states.last() == state,
                handed@ == run_actions(states),
                backend.applied() == start + handed@,
            decreases devices.len() - i,
        {
            let ghost pre = state;
            let actions = state.apply_event(&devices[i]);
            proof {
                crate::logic::laws::lemma_event_keeps_consistency(
                    pre,
                    devices@[i as int],
                    state,
                    actions@,
                );
                let evs = devices@.subrange(0, i + 1);
                let next = states.push(state);
                assert forall|k: int| 0 <= k < evs.len() implies event_leads(
                    next[k],
                    #[trigger] evs[k],
                    next[k + 1],
                ) by {
                    if k < i {
                        assert(devices@.subrange(0, i as int)[k] == evs[k]);
                    } else {
                        assert(next[k] == pre);
                    }
                }
                assert(is_run(enabled, evs, next));
                assert(next.drop_last() =~= states);
                assert(next[next.len() - 2] == pre);
                assert(run_actions(next) == run_actions(states) + step_actions(pre, state));
                states = next;
            }
            let ghost acts = actions@;
            let (res, Ghost(n)) = apply_actions(&mut backend, actions);
            match res {
                Err(e) => {
                    return Err(e);
                },
                Ok(()) => {},
            }
            assert(acts.subrange(0, n as int) =~= acts);
            handed = Ghost(handed@ + acts);
            assert(backend.applied() == start + handed@);
            i = i + 1;
        }
        assert(devices@.subrange(0, i as int) =~= devices@);
        let runner = Self { backend, state, handed, scanned: Ghost(devices@), start_run: Ghost(states) };
        assert(is_run(enabled, runner.scanned_view(), states));
        assert(runner.handed_view() == run_actions(states));
        assert(states.last() == runner.state_view());
        assert(run_with_actions(
            enabled,
            runner.scanned_view(),
            states,
            runner.state_view(),
            runner.handed_view(),
        ));
        Ok(runner)
    }

    /// Turns the feature on or off and hands the resulting actions to the backend, in
    /// order, stopping at the first it refuses. The state changes whether or not the
    /// backend accepts them.
    pub fn set_enabled(&mut self, enabled: bool) -> (r: anyhow::Result<()>)
        requires
            old(self).inv(),
        ensures
            final(self).inv(),
            final(self).scanned_view() == old(self).scanned_view(),
            final(self).start_run_view() == old(self).start_run_view(),
            r is Ok ==> final(self).handed_view() == old(self).handed_view() + step_actions(
                old(self).state_view(),
                final(self).state_view(),
            ),
            r is Err ==> partly_handed(
                old(self).handed_view(),
                step_actions(old(self).state_view(), final(self).state_view()),
                final(self).handed_view(),
            ),
            r is Ok ==> final(self).backend_view().applied() == old(self).backend_view().applied()
                + step_actions(old(self).state_view(), final(self).state_view()),
            r is Err ==> partly_handed(
                old(self).backend_view().applied(),
                step_actions(old(self).state_view(), final(self).state_view()),
                final(self).backend_view().applied(),
            ),
            r is Ok && enabled && !old(self).state_view().feature.enabled
                ==> final(self).backend_view().applied() == old(self).backend_view().applied()
                + disables_on_enable(old(self).state_view()),
            enable_step(
                old(self).state_view(),
                enabled,
                final(self).state_view(),
                reconcile_actions(
                    old(self).state_view().policy,
                    final(self).state_view().keyboard_target(),
                    final(self).state_view().pointing_target(),
                ),
            ),
    {
        let ghost pre = self.state;
        let actions = self.state.set_enabled(enabled);
        proof {
            crate::logic::laws::lemma_enable_keeps_consistency(pre, enabled, self.state, actions@);
        }
        let ghost acts = actions@;
        let (res, Ghost(n)) = apply_actions(&mut self.backend, actions);
        self.handed = Ghost(self.handed@ + acts.subrange(0, n as int));
        proof {
            if res is Ok {
                assert(acts.subrange(0, n as int) =~= acts);
            }
            if enabled && !pre.feature.enabled {
                crate::logic::laws::lemma_enabling_disables_each_covered_type(pre, self.state, acts);
            }
        }
        res
    }

    /// Takes the next device change from the backend, runs it through the state machine
    /// and hands the resulting actions to the backend, in order, stopping at the first it
    /// refuses. When the backend has no event to give, nothing changes and no action is
    /// handed over.
    pub fn process_next_event(&mut self) -> (r: anyhow::Result<()>)
        requires
            old(self).inv(),
        ensures
            final(self).inv(),
            final(self).scanned_view() == old(self).scanned_view(),
            final(self).start_run_view() == old(self).start_run_view(),
            r is Ok ==> (exists|ev: DeviceEvent|
                #[trigger] event_leads(old(self).state_view(), ev, final(self).state_view()))
                && final(self).handed_view() == old(self).handed_view() + step_actions(
                old(self).state_view(),
                final(self).state_view(),
            ),
            r is Err ==> (final(self).state_view() == old(self).state_view()
                && final(self).handed_view() == old(self).handed_view()) || ((exists|
                ev: DeviceEvent,
            | #[trigger] event_leads(old(self).state_view(), ev, final(self).state_view()))
                && partly_handed(
                old(self).handed_view(),
                step_actions(old(self).state_view(), final(self).state_view()),
                final(self).handed_view(),
            )),
            r is Ok ==> final(self).backend_view().applied() == old(self).backend_view().applied()
                + step_actions(old(self).state_view(), final(self).state_view()),
            r is Err ==> final(self).backend_view().applied() == old(self).backend_view().applied()
                || partly_handed(
                old(self).backend_view().applied(),
                step_actions(old(self).state_view(), final(self).state_view()),
                final(self).backend_view().applied(),
            ),
    {
        let event = self.backend.next_event()?;
        let ghost pre = self.state;
        let actions = self.state.apply_event(&event);
        proof {
            crate::logic::laws::lemma_event_keeps_consistency(pre, event, self.state, actions@);
        }
        let ghost acts = actions@;
        assert(event_leads(pre, event, self.state_view()));
        let (res, Ghost(n)) = apply_actions(&mut self.backend, actions);
        self.handed = Ghost(self.handed@ + acts.subrange(0, n as int));
        proof {
            if res is Ok {
                assert(acts.subrange(0, n as int) =~= acts);
            }
        }
        res
    }

    /// Brings the feature switch in line with `config`; nothing happens when it already is.
    pub fn apply_config(&mut self, config: &Config) -> (r: anyhow::Result<()>)
        requires
            old(self).inv(),
        ensures
            final(self).inv(),
            final(self).scanned_view() == old(self).scanned_view(),
            final(self).start_run_view() == old(self).start_run_view(),
            config.enabled == old(self).state_view().feature.enabled ==> r is Ok && final(self).state_view() == old(self).state_view() && final(self).handed_view() == old(self).handed_view(),
            config.enabled != old(self).state_view().feature.enabled && r is Ok ==> final(self).handed_view() == old(self).handed_view() + step_actions(
                old(self).state_view(),
                final(self).state_view(),
            ),
            config.enabled != old(self).state_view().feature.enabled && r is Err ==> partly_handed(
                old(self).handed_view(),
                step_actions(old(self).state_view(), final(self).state_view()),
                final(self).handed_view(),
            ),
            config.enabled == old(self).state_view().feature.enabled ==> final(self).backend_view()
                == old(self).backend_view(),
            config.enabled != old(self).state_view().feature.enabled && r is Ok
                ==> final(self).backend_view().applied() == old(self).backend_view().applied()
                + step_actions(old(self).state_view(), final(self).state_view()),
            config.enabled != old(self).state_view().feature.enabled && r is Err ==> partly_handed(
                old(self).backend_view().applied(),
                step_actions(old(self).state_view(), final(self).state_view()),
                final(self).backend_view().applied(),
            ),
            config.enabled != old(self).state_view().feature.enabled ==> enable_step(
                old(self).state_view(),
                config.enabled,
                final(self).state_view(),
                reconcile_actions(
                    old(self).state_view().policy,
                    final(self).state_view().keyboard_target(),
                    final(self).state_view().pointing_target(),
                ),
            ),
    {
        if self.state.feature.enabled != config.enabled {
            return self.set_enabled(config.enabled);
        }
        Ok(())
    }

    /// What the runner reports of its state.
    pub fn status(&self) -> (s: StatusSnapshot)
        ensures
            s.enabled == self.state_view().feature.enabled,
            s.keyboard_external_count == self.state_view().policy.keyboard_external_count,
            s.pointing_external_count == self.state_view().policy.pointing_external_count,
            s.keyboard_disabled == self.state_view().policy.keyboard_disabled,
            s.pointing_disabled == self.state_view().policy.pointing_disabled,
    {
        StatusSnapshot::from_state(&self.state)
    }

    pub fn backend(&self) -> (b: &B)
        ensures
            *b == self.backend_view(),
    {
        &self.backend
    }

    pub fn backend_mut(&mut self) -> (b: &mut B)
        ensures
            *b == old(self).backend_view(),
            final(self).backend_view() == *final(b),
            final(self).state_view() == old(self).state_view(),
            final(self).handed_view() == old(self).handed_view(),
            final(self).scanned_view() == old(self).scanned_view(),
            final(self).start_run_view() == old(self).start_run_view(),
    {
        &mut self.backend
    }
}

/// Hands each action to the backend in order, stopping at the first it refuses. Gives
/// the backend's answer and how many actions it was handed, the refused one included.
/// With no action to hand over, the backend is not called and the call succeeds.
fn apply_actions<B: PlatformBackend>(backend: &mut B, actions: Vec<PolicyAction>) -> (r: (
    anyhow::Result<()>,
    Ghost<nat>,
))
    ensures
        r.0 is Ok ==> r.1@ == actions@.len(),
        r.0 is Err ==> 1 <= r.1@ <= actions@.len(),
        actions@.len() == 0 ==> r.0 is Ok && *final(backend) == *old(backend),
        final(backend).applied() == old(backend).applied() + actions@.subrange(0, r.1@ as int),
{
    let mut i: usize = 0;
    while i < actions.len()
        invariant
            i <= actions.len(),
            i == 0 ==> *backend == *old(backend),
            backend.applied() == old(backend).applied() + actions@.subrange(0, i as int),
        decreases actions.len() - i,
    {
        proof {
            assert(actions@.subrange(0, i + 1) =~= actions@.subrange(0, i as int).push(actions@[i as int]));
        }
        match backend.apply_action(actions[i]) {
            Ok(()) => {},
            Err(e) => {
                return (Err(e), Ghost((i + 1) as nat));
            },
        }
        i = i + 1;
    }
    assert(actions@.subrange(0, actions@.len() as int) =~= actions@);
    (Ok(()), Ghost(actions.len() as nat))
}

} // verus!
