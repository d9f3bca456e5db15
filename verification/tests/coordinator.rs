use dynisland_reconcile::config::power::{DePowerConfig, DePowerConfigMain, PowerConfig};
use dynisland_reconcile::coordinator::{coordinate, Registration, RegistrationEvent};
use dynisland_reconcile::identifier::ActivityIdentifier;
use dynisland_reconcile::registry::ActivityRegistry;

fn id(window: &str, instance: usize) -> ActivityIdentifier {
    ActivityIdentifier::new("power", "power-activity", window, instance)
}

fn event(id: ActivityIdentifier, register: bool) -> RegistrationEvent {
    RegistrationEvent { id, register }
}

#[test]
fn a_registration_is_applied_once() {
    let known = vec![id("main", 0), id("main", 1)];
    let config = DePowerConfigMain::default().into_main_config();
    let mut registry = ActivityRegistry::new();
    let first = coordinate(&mut registry, &known, &config, &event(id("main", 1), true));
    assert_eq!(first, Registration::Add { config: PowerConfig::default() });
    assert_eq!(registry.list_activities(), vec![id("main", 1)]);
    let second = coordinate(&mut registry, &known, &config, &event(id("main", 1), true));
    assert_eq!(second, Registration::Ignore);
    assert_eq!(registry.list_activities(), vec![id("main", 1)]);
}

#[test]
fn an_unregistration_of_an_unregistered_activity_is_ignored() {
    let known = vec![id("main", 0)];
    let config = DePowerConfigMain::default().into_main_config();
    let mut registry = ActivityRegistry::new();
    let action = coordinate(&mut registry, &known, &config, &event(id("main", 0), false));
    assert_eq!(action, Registration::Ignore);
    assert_eq!(registry.len(), 0);
}

#[test]
fn an_unknown_activity_is_not_found() {
    let known = vec![id("main", 0)];
    let config = DePowerConfigMain::default().into_main_config();
    let mut registry = ActivityRegistry::new();
    registry.insert(id("side", 0));
    assert_eq!(
        coordinate(&mut registry, &known, &config, &event(id("side", 0), false)),
        Registration::NotFound
    );
    assert_eq!(
        coordinate(&mut registry, &known, &config, &event(id("main", 3), true)),
        Registration::NotFound
    );
    assert_eq!(registry.list_activities(), vec![id("side", 0)]);
}

#[test]
fn a_registered_activity_gets_the_configuration_of_its_instance() {
    let known = vec![id("main", 0), id("main", 1), id("main", 2)];
    let mut overlay = DePowerConfigMain::default();
    overlay.windows.insert(
        "main".to_string(),
        vec![
            DePowerConfig::default(),
            DePowerConfig { name: Some("second".to_string()), ..DePowerConfig::default() },
        ],
    );
    let config = overlay.into_main_config();
    let mut registry = ActivityRegistry::new();
    assert_eq!(
        coordinate(&mut registry, &known, &config, &event(id("main", 1), true)),
        Registration::Add {
            config: PowerConfig { name: "second".to_string(), ..PowerConfig::default() }
        }
    );
    assert_eq!(
        coordinate(&mut registry, &known, &config, &event(id("main", 2), true)),
        Registration::Add { config: PowerConfig::default() }
    );
    assert_eq!(registry.list_activities(), vec![id("main", 1), id("main", 2)]);
    assert_eq!(
        coordinate(&mut registry, &known, &config, &event(id("main", 1), false)),
        Registration::Remove
    );
    assert_eq!(registry.list_activities(), vec![id("main", 2)]);
}

#[test]
fn the_registry_holds_no_activity_twice() {
    let mut registry = ActivityRegistry::new();
    assert!(registry.insert(id("main", 0)));
    assert!(!registry.insert(id("main", 0)));
    assert!(registry.insert(id("main", 1)));
    assert_eq!(registry.len(), 2);
    assert!(registry.remove(&id("main", 0)));
    assert!(!registry.remove(&id("main", 0)));
    assert_eq!(registry.list_activities(), vec![id("main", 1)]);
}

#[test]
fn remove_all_takes_out_the_listed_activities() {
    let mut registry = ActivityRegistry::new();
    registry.insert(id("a", 0));
    registry.insert(id("b", 0));
    registry.insert(id("c", 0));
    let b = id("b", 0);
    let d = id("d", 0);
    registry.remove_all(&vec![&b, &d]);
    assert_eq!(registry.list_activities(), vec![id("a", 0), id("c", 0)]);
}
