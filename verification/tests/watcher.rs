use dynisland_reconcile::config::power::{DePowerConfig, DePowerConfigMain, PowerConfig};
use dynisland_reconcile::coordinator::{coordinate, Registration, RegistrationEvent};
use dynisland_reconcile::identifier::ActivityIdentifier;
use dynisland_reconcile::registry::ActivityRegistry;
use dynisland_reconcile::watcher::{
    BusDevice, DeviceWatcher, WatcherCommand, WatcherEvent, WatcherOutput, POLL_INTERVAL_MS,
};

fn device(handle: &str, name: &str) -> BusDevice {
    BusDevice { handle: handle.to_string(), name: name.to_string() }
}

fn devices(list: Vec<BusDevice>) -> WatcherEvent {
    WatcherEvent::Devices { devices: list, listening: true }
}

fn unheard(list: Vec<BusDevice>) -> WatcherEvent {
    WatcherEvent::Devices { devices: list, listening: false }
}

fn aggregate(handle: &str) -> WatcherEvent {
    WatcherEvent::Aggregate { handle: handle.to_string() }
}

fn event(id: &ActivityIdentifier, register: bool) -> RegistrationEvent {
    RegistrationEvent { id: id.clone(), register }
}

fn output(identity: Option<Option<&str>>, register: Option<bool>) -> WatcherOutput {
    WatcherOutput { identity: identity.map(|id| id.map(String::from)), register }
}

const BAT0: &str = "/org/freedesktop/UPower/devices/battery_BAT0";
const BAT1: &str = "/org/freedesktop/UPower/devices/battery_BAT1";
const DISPLAY: &str = "/org/freedesktop/UPower/devices/DisplayDevice";

#[test]
fn a_watcher_with_a_target_enumerates_first() {
    let watcher = DeviceWatcher::new("BAT0", false);
    assert_eq!(watcher.command(), WatcherCommand::Enumerate { delay_ms: 0 });
    assert!(!watcher.is_stopped());
}

#[test]
fn a_watcher_without_a_target_emits_the_aggregate_once_and_stops() {
    let mut watcher = DeviceWatcher::new("", false);
    assert_eq!(watcher.command(), WatcherCommand::QueryAggregate { delay_ms: 0 });
    assert_eq!(watcher.step(&aggregate(DISPLAY)), output(Some(Some(DISPLAY)), Some(true)));
    assert_eq!(watcher.command(), WatcherCommand::Stop);
    assert!(watcher.is_stopped());
    assert_eq!(watcher.step(&aggregate(DISPLAY)), output(None, None));
    assert_eq!(watcher.step(&devices(vec![device(BAT0, "BAT0")])), output(None, None));
    assert_eq!(watcher.step(&WatcherEvent::BusError), output(None, None));
    assert_eq!(watcher.command(), WatcherCommand::Stop);
}

#[test]
fn a_watcher_without_a_target_ignores_an_enumeration() {
    let mut watcher = DeviceWatcher::new("", true);
    assert_eq!(watcher.step(&devices(vec![device(BAT0, "")])), output(None, None));
    assert_eq!(watcher.command(), WatcherCommand::QueryAggregate { delay_ms: 0 });
}

#[test]
fn the_first_discovery_emits_the_identity_and_registers() {
    let mut watcher = DeviceWatcher::new("BAT0", false);
    let out = watcher.step(&devices(vec![device(BAT1, "BAT1"), device(BAT0, "BAT0")]));
    assert_eq!(out, output(Some(Some(BAT0)), Some(true)));
    assert_eq!(watcher.command(), WatcherCommand::Enumerate { delay_ms: POLL_INTERVAL_MS });
}

#[test]
fn the_target_may_be_a_handle() {
    let mut watcher = DeviceWatcher::new(BAT1, false);
    let out = watcher.step(&devices(vec![device(BAT0, "BAT0"), device(BAT1, "BAT1")]));
    assert_eq!(out, output(Some(Some(BAT1)), Some(true)));
}

#[test]
fn the_first_match_in_the_enumeration_wins() {
    let mut watcher = DeviceWatcher::new("BAT0", false);
    let out = watcher.step(&devices(vec![device("/first", "BAT0"), device("/second", "BAT0")]));
    assert_eq!(out, output(Some(Some("/first")), Some(true)));
}

#[test]
fn the_same_device_again_emits_nothing() {
    let mut watcher = DeviceWatcher::new("BAT0", false);
    watcher.step(&devices(vec![device(BAT0, "BAT0")]));
    assert_eq!(watcher.step(&devices(vec![device(BAT0, "BAT0")])), output(None, None));
    assert_eq!(watcher.step(&devices(vec![device(BAT0, "BAT0")])), output(None, None));
}

#[test]
fn a_new_handle_for_the_same_name_is_a_new_identity_without_registration() {
    let mut watcher = DeviceWatcher::new("BAT0", false);
    watcher.step(&devices(vec![device(BAT0, "BAT0")]));
    let out = watcher.step(&devices(vec![device("/replugged", "BAT0")]));
    assert_eq!(out, output(Some(Some("/replugged")), None));
}

#[test]
fn searching_without_a_match_emits_nothing() {
    let mut watcher = DeviceWatcher::new("BAT0", true);
    assert_eq!(watcher.step(&devices(Vec::new())), output(None, None));
    assert_eq!(watcher.step(&devices(vec![device(BAT1, "BAT1")])), output(None, None));
    assert_eq!(watcher.command(), WatcherCommand::Enumerate { delay_ms: POLL_INTERVAL_MS });
}

#[test]
fn a_lost_device_emits_the_empty_identity_and_unregisters() {
    let mut watcher = DeviceWatcher::new("BAT0", false);
    watcher.step(&devices(vec![device(BAT0, "BAT0")]));
    assert_eq!(watcher.step(&devices(Vec::new())), output(Some(None), Some(false)));
    assert_eq!(watcher.step(&devices(Vec::new())), output(None, None));
    let out = watcher.step(&devices(vec![device(BAT0, "BAT0")]));
    assert_eq!(out, output(Some(Some(BAT0)), Some(true)));
}

#[test]
fn a_lost_device_falls_back_to_the_aggregate_when_kept_registered() {
    let mut watcher = DeviceWatcher::new("BAT0", true);
    watcher.step(&devices(vec![device(BAT0, "BAT0")]));
    assert_eq!(watcher.step(&devices(Vec::new())), output(None, None));
    assert_eq!(watcher.command(), WatcherCommand::QueryAggregate { delay_ms: 0 });
    assert_eq!(watcher.step(&aggregate(DISPLAY)), output(Some(Some(DISPLAY)), Some(true)));
    assert_eq!(watcher.command(), WatcherCommand::Enumerate { delay_ms: POLL_INTERVAL_MS });
    assert_eq!(watcher.step(&devices(Vec::new())), output(None, None));
    let out = watcher.step(&devices(vec![device(BAT0, "BAT0")]));
    assert_eq!(out, output(Some(Some(BAT0)), Some(true)));
}

#[test]
fn a_device_with_the_aggregate_handle_is_not_emitted_twice_in_a_row() {
    let mut watcher = DeviceWatcher::new("BAT0", true);
    watcher.step(&devices(vec![device(BAT0, "BAT0")]));
    watcher.step(&devices(Vec::new()));
    assert_eq!(watcher.step(&aggregate(DISPLAY)), output(Some(Some(DISPLAY)), Some(true)));
    let out = watcher.step(&devices(vec![device(DISPLAY, "BAT0")]));
    assert_eq!(out, output(None, Some(true)));
}

#[test]
fn without_a_listener_the_registration_stands_in_for_the_identity() {
    let mut kept = DeviceWatcher::new("BAT0", true);
    assert_eq!(kept.step(&unheard(vec![device(BAT0, "BAT0")])), output(None, Some(true)));
    let mut dropped = DeviceWatcher::new("BAT0", false);
    assert_eq!(dropped.step(&unheard(vec![device(BAT0, "BAT0")])), output(None, Some(false)));
    assert_eq!(dropped.step(&unheard(vec![device(BAT0, "BAT0")])), output(None, None));
}

#[test]
fn a_failed_call_is_made_again_after_the_interval() {
    let mut watcher = DeviceWatcher::new("BAT0", false);
    assert_eq!(watcher.step(&WatcherEvent::BusError), output(None, None));
    assert_eq!(watcher.command(), WatcherCommand::Enumerate { delay_ms: 4000 });
    let mut sentinel = DeviceWatcher::new("", false);
    assert_eq!(sentinel.step(&WatcherEvent::BusError), output(None, None));
    assert_eq!(sentinel.command(), WatcherCommand::QueryAggregate { delay_ms: 4000 });
    assert_eq!(sentinel.step(&aggregate(DISPLAY)), output(Some(Some(DISPLAY)), Some(true)));
}

#[test]
fn a_failed_call_does_not_lose_the_device() {
    let mut watcher = DeviceWatcher::new("BAT0", false);
    watcher.step(&devices(vec![device(BAT0, "BAT0")]));
    assert_eq!(watcher.step(&WatcherEvent::BusError), output(None, None));
    assert_eq!(watcher.step(&devices(vec![device(BAT0, "BAT0")])), output(None, None));
}

#[test]
fn cleanup_stops_the_watcher_without_emitting() {
    let mut watcher = DeviceWatcher::new("BAT0", true);
    watcher.step(&devices(vec![device(BAT0, "BAT0")]));
    assert_eq!(watcher.step(&WatcherEvent::Cleanup), output(None, None));
    assert_eq!(watcher.command(), WatcherCommand::Stop);
    assert_eq!(watcher.step(&devices(Vec::new())), output(None, None));
    assert_eq!(watcher.command(), WatcherCommand::Stop);
}

#[test]
fn an_unasked_aggregate_is_ignored() {
    let mut watcher = DeviceWatcher::new("BAT0", true);
    assert_eq!(watcher.step(&aggregate(DISPLAY)), output(None, None));
    assert_eq!(watcher.command(), WatcherCommand::Enumerate { delay_ms: 0 });
}

#[test]
fn no_identity_is_emitted_twice_in_a_row() {
    let mut watcher = DeviceWatcher::new("BAT0", false);
    let events = vec![
        devices(Vec::new()),
        devices(vec![device(BAT0, "BAT0")]),
        devices(vec![device(BAT0, "BAT0")]),
        unheard(vec![device("/other", "BAT0")]),
        devices(vec![device(BAT0, "BAT0")]),
        WatcherEvent::BusError,
        devices(Vec::new()),
        devices(Vec::new()),
        unheard(vec![device(BAT0, "BAT0")]),
        devices(Vec::new()),
        devices(vec![device(BAT1, BAT0)]),
        aggregate(DISPLAY),
        devices(vec![device(BAT1, "BAT0")]),
        devices(vec![device(BAT0, "BAT0")]),
        WatcherEvent::Cleanup,
        devices(Vec::new()),
    ];
    let mut emitted: Vec<Option<String>> = Vec::new();
    for event in &events {
        if let Some(identity) = watcher.step(event).identity {
            emitted.push(identity);
        }
    }
    assert!(emitted.len() >= 4);
    for pair in emitted.windows(2) {
        assert_ne!(pair[0], pair[1]);
    }
}

#[test]
fn a_lost_device_is_removed_from_the_registry_once() {
    let id = ActivityIdentifier::new("power", "power-activity", "main", 0);
    let known = vec![id.clone()];
    let mut overlay = DePowerConfigMain::default();
    overlay.windows.insert(
        "main".to_string(),
        vec![DePowerConfig { battery: Some("BAT0".to_string()), ..DePowerConfig::default() }],
    );
    let config = overlay.into_main_config();
    let mut registry = ActivityRegistry::new();
    let mut watcher = DeviceWatcher::new("BAT0", false);

    let found = watcher.step(&devices(vec![device(BAT0, "BAT0")]));
    assert_eq!(found, output(Some(Some(BAT0)), Some(true)));
    let action = coordinate(&mut registry, &known, &config, &event(&id, found.register.unwrap()));
    assert_eq!(
        action,
        Registration::Add {
            config: PowerConfig { battery: "BAT0".to_string(), ..PowerConfig::default() }
        }
    );
    assert!(registry.contains(&id));

    let lost = watcher.step(&devices(Vec::new()));
    assert_eq!(lost.identity, Some(None));
    assert_eq!(lost.register, Some(false));
    let action = coordinate(&mut registry, &known, &config, &event(&id, false));
    assert_eq!(action, Registration::Remove);
    assert!(!registry.contains(&id));
    assert_eq!(registry.len(), 0);

    let action = coordinate(&mut registry, &known, &config, &event(&id, false));
    assert_eq!(action, Registration::Ignore);
    assert_eq!(watcher.step(&devices(Vec::new())), output(None, None));
}
