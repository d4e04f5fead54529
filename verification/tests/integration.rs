use aegis_input::config::config::Config;
use aegis_input::logic::policy::PolicyAction;
use aegis_input::logic::state::{DeviceEvent, DeviceOrigin, DeviceState, DeviceType};
use aegis_input::platform::PlatformBackend;
use aegis_input::service::runner::Runner;
use std::collections::VecDeque;

pub struct FakePlatform {
    scan_events: Vec<DeviceEvent>,
    events: VecDeque<DeviceEvent>,
    pub actions: Vec<PolicyAction>,
}

impl FakePlatform {
    pub fn new(scan_events: Vec<DeviceEvent>, events: Vec<DeviceEvent>) -> Self {
        Self {
            scan_events,
            events: VecDeque::from(events),
            actions: Vec::new(),
        }
    }
}

impl PlatformBackend for FakePlatform {
    fn scan_devices(&mut self) -> anyhow::Result<Vec<DeviceEvent>> {
        Ok(self.scan_events.clone())
    }

    fn next_event(&mut self) -> anyhow::Result<DeviceEvent> {
        self.events
            .pop_front()
            .ok_or_else(|| anyhow::Error::msg("no more events"))
    }

    fn apply_action(&mut self, action: PolicyAction) -> anyhow::Result<()> {
        self.actions.push(action);
        Ok(())
    }
}

fn event(id: &str, name: &str, device_type: DeviceType, state: DeviceState) -> DeviceEvent {
    DeviceEvent {
        id: id.to_string(),
        name: name.to_string(),
        device_type,
        origin: DeviceOrigin::External,
        state,
    }
}

#[test]
fn multiple_external_keyboards_require_all_removed() {
    let kb1_connect = event("usb-kb-1", "External Keyboard 1", DeviceType::Keyboard, DeviceState::Connected);
    let kb2_connect = event("usb-kb-2", "External Keyboard 2", DeviceType::Keyboard, DeviceState::Connected);
    let kb1_disconnect = event("usb-kb-1", "External Keyboard 1", DeviceType::Keyboard, DeviceState::Disconnected);
    let kb2_disconnect = event("usb-kb-2", "External Keyboard 2", DeviceType::Keyboard, DeviceState::Disconnected);

    let backend = FakePlatform::new(
        Vec::new(),
        vec![kb1_connect, kb2_connect, kb1_disconnect, kb2_disconnect],
    );
    let mut runner = Runner::new(backend, true).expect("runner init");

    runner.process_next_event().expect("kb1 connect");
    let disable_count = runner
        .backend()
        .actions
        .iter()
        .filter(|a| **a == PolicyAction::Disable(DeviceType::Keyboard))
        .count();
    assert_eq!(disable_count, 1);

    let actions_len_before = runner.backend().actions.len();
    runner.process_next_event().expect("kb2 connect");
    assert_eq!(runner.backend().actions.len(), actions_len_before);

    runner.process_next_event().expect("kb1 disconnect");
    assert!(!runner
        .backend()
        .actions
        .contains(&PolicyAction::Enable(DeviceType::Keyboard)));

    runner.process_next_event().expect("kb2 disconnect");
    assert!(runner
        .backend()
        .actions
        .contains(&PolicyAction::Enable(DeviceType::Keyboard)));
}

#[test]
fn external_mouse_disables_and_restores_internal_pointing() {
    let connect = event("usb-mouse-1", "External Mouse", DeviceType::Pointing, DeviceState::Connected);
    let disconnect = event("usb-mouse-1", "External Mouse", DeviceType::Pointing, DeviceState::Disconnected);

    let backend = FakePlatform::new(Vec::new(), vec![connect, disconnect]);
    let mut runner = Runner::new(backend, true).expect("runner init");

    runner.process_next_event().expect("process connect");
    assert!(runner
        .backend()
        .actions
        .contains(&PolicyAction::Disable(DeviceType::Pointing)));

    runner.process_next_event().expect("process disconnect");
    assert!(runner
        .backend()
        .actions
        .contains(&PolicyAction::Enable(DeviceType::Pointing)));
}

#[test]
fn disable_feature_restores_and_blocks_actions() {
    let connect = event("usb-kb-1", "External Keyboard", DeviceType::Keyboard, DeviceState::Connected);

    let backend = FakePlatform::new(Vec::new(), vec![connect]);
    let mut runner = Runner::new(backend, false).expect("runner init");

    runner.process_next_event().expect("process connect");
    assert!(!runner
        .backend()
        .actions
        .contains(&PolicyAction::Disable(DeviceType::Keyboard)));

    runner.set_enabled(true).expect("enable feature");
    assert!(runner
        .backend()
        .actions
        .contains(&PolicyAction::Disable(DeviceType::Keyboard)));

    runner.set_enabled(false).expect("disable feature");
    assert!(runner
        .backend()
        .actions
        .contains(&PolicyAction::Enable(DeviceType::Keyboard)));
}

#[test]
fn keyboard_and_mouse_are_independent() {
    let kb_connect = event("usb-kb", "External Keyboard", DeviceType::Keyboard, DeviceState::Connected);
    let mouse_connect = event("usb-mouse", "External Mouse", DeviceType::Pointing, DeviceState::Connected);

    let backend = FakePlatform::new(Vec::new(), vec![kb_connect, mouse_connect]);
    let mut runner = Runner::new(backend, true).expect("runner init");

    runner.process_next_event().expect("kb connect");
    runner.process_next_event().expect("mouse connect");

    assert!(runner
        .backend()
        .actions
        .contains(&PolicyAction::Disable(DeviceType::Keyboard)));
    assert!(runner
        .backend()
        .actions
        .contains(&PolicyAction::Disable(DeviceType::Pointing)));
}

#[test]
fn devices_present_at_start_are_counted() {
    let scanned = vec![
        event("usb-kb", "External Keyboard", DeviceType::Keyboard, DeviceState::Connected),
        DeviceEvent {
            id: "/dev/input/event3".to_string(),
            name: "Internal Touchpad".to_string(),
            device_type: DeviceType::Pointing,
            origin: DeviceOrigin::Internal,
            state: DeviceState::Connected,
        },
    ];
    let backend = FakePlatform::new(scanned, Vec::new());
    let runner = Runner::new(backend, true).expect("runner init");
    assert_eq!(runner.backend().actions, vec![PolicyAction::Disable(DeviceType::Keyboard)]);
    let status = runner.status();
    assert!(status.enabled);
    assert_eq!(status.keyboard_external_count, 1);
    assert_eq!(status.pointing_external_count, 0);
    assert!(status.keyboard_disabled);
    assert!(!status.pointing_disabled);
}

#[test]
fn missing_event_leaves_state_and_reports_error() {
    let backend = FakePlatform::new(Vec::new(), Vec::new());
    let mut runner = Runner::new(backend, true).expect("runner init");
    assert!(runner.process_next_event().is_err());
    let status = runner.status();
    assert_eq!(status.keyboard_external_count, 0);
    assert!(runner.backend().actions.is_empty());
}

#[test]
fn apply_config_switches_only_on_change() {
    let connect = event("usb-kb", "External Keyboard", DeviceType::Keyboard, DeviceState::Connected);
    let backend = FakePlatform::new(vec![connect], Vec::new());
    let mut runner = Runner::new(backend, false).expect("runner init");
    assert!(runner.backend().actions.is_empty());
    let mut config = Config::default();
    runner.apply_config(&config).expect("same setting");
    assert!(runner.backend().actions.is_empty());
    config.enabled = true;
    runner.apply_config(&config).expect("switch on");
    assert_eq!(runner.backend().actions, vec![PolicyAction::Disable(DeviceType::Keyboard)]);
    runner.backend_mut().actions.clear();
    assert!(runner.backend().actions.is_empty());
    assert!(runner.status().keyboard_disabled);
}
