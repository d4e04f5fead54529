use aegis_input::logic::policy::PolicyAction;
use aegis_input::logic::state::{DeviceEvent, DeviceOrigin, DeviceState, DeviceType, SystemState};
use aegis_input::service::status::{status_path_after_write, StatusSnapshot};

fn ev(id: &str, t: DeviceType, origin: DeviceOrigin, state: DeviceState) -> DeviceEvent {
    DeviceEvent { id: id.to_string(), name: format!("device {}", id), device_type: t, origin, state }
}

fn consistent(s: &SystemState) -> bool {
    let p = &s.policy;
    p.keyboard_disabled == (s.feature.enabled && p.keyboard_external_count > 0)
        && p.pointing_disabled == (s.feature.enabled && p.pointing_external_count > 0)
}

#[test]
fn new_state_is_idle() {
    let s = SystemState::new(true);
    assert!(s.feature.enabled);
    assert_eq!(s.policy.keyboard_external_count, 0);
    assert_eq!(s.policy.pointing_external_count, 0);
    assert!(!s.policy.keyboard_disabled);
    assert!(!s.policy.pointing_disabled);
}

#[test]
fn every_step_keeps_consistency() {
    let mut s = SystemState::new(true);
    let steps = vec![
        ev("a", DeviceType::Keyboard, DeviceOrigin::External, DeviceState::Connected),
        ev("b", DeviceType::Pointing, DeviceOrigin::External, DeviceState::Connected),
        ev("a", DeviceType::Keyboard, DeviceOrigin::External, DeviceState::Connected),
        ev("i", DeviceType::Keyboard, DeviceOrigin::Internal, DeviceState::Connected),
        ev("a", DeviceType::Keyboard, DeviceOrigin::External, DeviceState::Disconnected),
        ev("zz", DeviceType::Pointing, DeviceOrigin::External, DeviceState::Disconnected),
    ];
    for e in &steps {
        s.apply_event(e);
        assert!(consistent(&s));
    }
    s.set_enabled(false);
    assert!(consistent(&s));
    s.set_enabled(true);
    assert!(consistent(&s));
}

#[test]
fn last_keyboard_detach_enables() {
    let mut s = SystemState::new(true);
    assert_eq!(
        s.apply_event(&ev("a", DeviceType::Keyboard, DeviceOrigin::External, DeviceState::Connected)),
        vec![PolicyAction::Disable(DeviceType::Keyboard)]
    );
    assert!(s
        .apply_event(&ev("b", DeviceType::Keyboard, DeviceOrigin::External, DeviceState::Connected))
        .is_empty());
    assert!(s
        .apply_event(&ev("a", DeviceType::Keyboard, DeviceOrigin::External, DeviceState::Disconnected))
        .is_empty());
    assert_eq!(
        s.apply_event(&ev("b", DeviceType::Keyboard, DeviceOrigin::External, DeviceState::Disconnected)),
        vec![PolicyAction::Enable(DeviceType::Keyboard)]
    );
}

#[test]
fn internal_devices_change_nothing() {
    let mut s = SystemState::new(true);
    let actions = s.apply_event(&ev("/dev/input/event1", DeviceType::Keyboard, DeviceOrigin::Internal, DeviceState::Connected));
    assert!(actions.is_empty());
    assert_eq!(s.policy.keyboard_external_count, 0);
    assert!(!s.policy.keyboard_disabled);
}

#[test]
fn feature_off_restores_everything() {
    let mut s = SystemState::new(true);
    s.apply_event(&ev("k", DeviceType::Keyboard, DeviceOrigin::External, DeviceState::Connected));
    s.apply_event(&ev("m", DeviceType::Pointing, DeviceOrigin::External, DeviceState::Connected));
    let actions = s.set_enabled(false);
    assert_eq!(
        actions,
        vec![PolicyAction::Enable(DeviceType::Keyboard), PolicyAction::Enable(DeviceType::Pointing)]
    );
    let more = s.apply_event(&ev("k2", DeviceType::Keyboard, DeviceOrigin::External, DeviceState::Connected));
    assert!(more.is_empty());
    assert_eq!(s.policy.keyboard_external_count, 2);
    let back = s.set_enabled(true);
    assert_eq!(
        back,
        vec![PolicyAction::Disable(DeviceType::Keyboard), PolicyAction::Disable(DeviceType::Pointing)]
    );
}

#[test]
fn connect_then_disconnect_restores_policy() {
    let mut s = SystemState::new(true);
    s.apply_event(&ev("k", DeviceType::Keyboard, DeviceOrigin::External, DeviceState::Connected));
    let before = s.policy.clone();
    s.apply_event(&ev("m", DeviceType::Pointing, DeviceOrigin::External, DeviceState::Connected));
    s.apply_event(&ev("m", DeviceType::Pointing, DeviceOrigin::External, DeviceState::Disconnected));
    assert_eq!(s.policy, before);
}

#[test]
fn repeated_connect_is_idle() {
    let mut s = SystemState::new(true);
    let e = ev("m", DeviceType::Pointing, DeviceOrigin::External, DeviceState::Connected);
    assert_eq!(s.apply_event(&e), vec![PolicyAction::Disable(DeviceType::Pointing)]);
    let before = s.policy.clone();
    assert!(s.apply_event(&e).is_empty());
    assert_eq!(s.policy, before);
}

#[test]
fn snapshot_mirrors_state() {
    let mut s = SystemState::new(true);
    s.apply_event(&ev("k", DeviceType::Keyboard, DeviceOrigin::External, DeviceState::Connected));
    let snap = StatusSnapshot::from_state(&s);
    assert_eq!(
        snap,
        StatusSnapshot {
            enabled: true,
            keyboard_external_count: 1,
            pointing_external_count: 0,
            keyboard_disabled: true,
            pointing_disabled: false,
        }
    );
    assert_eq!(StatusSnapshot::for_enabled(false).keyboard_external_count, 0);
}

#[test]
fn status_file_is_given_up_only_after_a_failed_first_write() {
    let p = Some("/tmp/status.toml".to_string());
    assert_eq!(status_path_after_write(p.clone(), true, false), None);
    assert_eq!(status_path_after_write(p.clone(), true, true), p);
    assert_eq!(status_path_after_write(p.clone(), false, false), p);
    assert_eq!(status_path_after_write(None, false, true), None);
}

#[test]
fn counts_follow_connections_across_switches() {
    let kb = |id: &str, state: DeviceState| DeviceEvent {
        id: id.to_string(),
        name: "External Keyboard".to_string(),
        device_type: DeviceType::Keyboard,
        origin: DeviceOrigin::External,
        state,
    };
    let mut s = SystemState::new(true);
    s.apply_event(&kb("a", DeviceState::Connected));
    s.set_enabled(false);
    s.apply_event(&kb("b", DeviceState::Connected));
    s.apply_event(&kb("b", DeviceState::Connected));
    s.set_enabled(true);
    s.apply_event(&kb("c", DeviceState::Disconnected));
    assert_eq!(s.policy.keyboard_external_count, 2);
    assert!(s.policy.keyboard_disabled);
    s.apply_event(&kb("a", DeviceState::Disconnected));
    s.set_enabled(false);
    s.apply_event(&kb("b", DeviceState::Disconnected));
    assert_eq!(s.policy.keyboard_external_count, 0);
    assert!(!s.policy.keyboard_disabled);
}
