use dynisland_reconcile::cli::{cli_command, help_text, CliCommand};
use dynisland_reconcile::config::power::{
    DePowerConfig, DePowerConfigMain, PowerConfig, PowerConfigMain,
};
use dynisland_reconcile::device::{Device, HistoryType, State};
use dynisland_reconcile::identifier::ActivityIdentifier;
use dynisland_reconcile::module::{
    activity_update, charge_history_request, rate_history_request, ActivityUpdate, ConfigError,
    HistoryRequest, PowerModule, WatchedActivity,
};
use dynisland_reconcile::runtime::{restart_producers, ProducerRuntime, RuntimeStep, ShutdownOutcome};
use dynisland_reconcile::windows::WindowMap;

fn id(window: &str, instance: usize) -> ActivityIdentifier {
    ActivityIdentifier::new("power", "power-activity", window, instance)
}

fn overlay(windows: Vec<(&str, Vec<DePowerConfig>)>) -> DePowerConfigMain {
    let mut overlay = DePowerConfigMain::default();
    for (name, list) in windows {
        overlay.windows.insert(name.to_string(), list);
    }
    overlay
}

fn battery(name: &str) -> DePowerConfig {
    DePowerConfig { battery: Some(name.to_string()), ..DePowerConfig::default() }
}

#[test]
fn a_new_module_has_one_default_instance() {
    let module = PowerModule::new("power");
    assert_eq!(module.name, "power");
    assert_eq!(module.config.windows.counts(), vec![("", 1usize)]);
    assert_eq!(module.config.get_for_window("", 0), PowerConfig::default());
    assert_eq!(module.registry.len(), 0);
}

#[test]
fn the_offered_default_has_no_window() {
    let module = PowerModule::new("power");
    let offered: PowerConfigMain = module.default_config();
    assert!(offered.windows.is_empty());
    assert_eq!(offered.default_conf(), PowerConfig::default());
}

#[test]
fn update_config_takes_over_what_was_read() {
    let mut module = PowerModule::new("power");
    let read = overlay(vec![("main", vec![battery("BAT0"), battery("BAT1")]), ("side", vec![])]);
    assert_eq!(module.update_config(Ok(read)), Ok(()));
    assert_eq!(module.config.windows.counts(), vec![("main", 2usize), ("side", 0)]);
    assert_eq!(module.config.get_for_window("main", 1).battery, "BAT1");
}

#[test]
fn update_config_without_windows_keeps_one_instance() {
    let mut module = PowerModule::new("power");
    let mut read = DePowerConfigMain::default();
    read.normal_color = "silver".to_string();
    assert_eq!(module.update_config(Ok(read)), Ok(()));
    assert_eq!(module.config.windows.counts(), vec![("", 1usize)]);
    assert_eq!(module.config.get_for_window("", 0).normal_color, "silver");
}

#[test]
fn a_failed_read_keeps_the_configuration_in_force() {
    let mut module = PowerModule::new("power");
    module.update_config(Ok(overlay(vec![("main", vec![battery("BAT0")])]))).unwrap();
    let result = module.update_config(Err("expected value at line 1 column 1".to_string()));
    assert_eq!(
        result,
        Err(ConfigError::Parse("expected value at line 1 column 1".to_string()))
    );
    assert_eq!(module.config.windows.counts(), vec![("main", 1usize)]);
    assert_eq!(module.config.get_for_window("main", 0).battery, "BAT0");
}

#[test]
fn the_producer_plans_the_missing_activities() {
    let mut module = PowerModule::new("power");
    let mut first = battery("BAT0");
    first.hide_if_missing = Some(false);
    module
        .update_config(Ok(overlay(vec![("main", vec![first, battery("BAT1")])])))
        .unwrap();
    let plan = module.producer();
    assert!(plan.to_remove.is_empty());
    assert_eq!(plan.to_create, vec![id("main", 0), id("main", 1)]);
    assert_eq!(module.registry.len(), 0);
    assert_eq!(
        plan.watched,
        vec![
            WatchedActivity {
                id: id("main", 0),
                config: PowerConfig {
                    battery: "BAT0".to_string(),
                    hide_if_missing: false,
                    ..PowerConfig::default()
                },
                keep_registered: true,
                device_name: "BAT0".to_string(),
            },
            WatchedActivity {
                id: id("main", 1),
                config: PowerConfig { battery: "BAT1".to_string(), ..PowerConfig::default() },
                keep_registered: false,
                device_name: "BAT1".to_string(),
            },
        ]
    );
}

#[test]
fn the_producer_unregisters_what_is_no_longer_wanted() {
    let mut module = PowerModule::new("power");
    module.registry.insert(id("main", 0));
    module.registry.insert(id("main", 1));
    module.registry.insert(id("old", 0));
    module
        .update_config(Ok(overlay(vec![("main", vec![battery("BAT0")]), ("side", vec![battery("")])])))
        .unwrap();
    let plan = module.producer();
    assert_eq!(plan.to_remove, vec![id("main", 1), id("old", 0)]);
    assert_eq!(plan.to_create, vec![id("side", 0)]);
    assert_eq!(module.registry.list_activities(), vec![id("main", 0)]);
    let watched: Vec<ActivityIdentifier> = plan.watched.iter().map(|w| w.id.clone()).collect();
    assert_eq!(watched, vec![id("main", 0), id("side", 0)]);
    assert_eq!(plan.watched[0].device_name, "BAT0");
    assert_eq!(plan.watched[1].device_name, "");
}

#[test]
fn a_reading_updates_the_activity_that_follows_the_device() {
    let device = Device {
        battery_level: 1,
        state: 1,
        technology: 1,
        time_to_empty: -5,
        time_to_full: 1800,
        type_: 2,
        update_time: 0,
        warning_level: 1,
    };
    let config = PowerConfig { battery: "BAT0".to_string(), ..PowerConfig::default() };
    assert_eq!(
        activity_update(&device, "BAT0", &config),
        Some(ActivityUpdate {
            charging: true,
            state: State::Charging,
            time_to_empty: 0,
            time_to_full: 1800,
        })
    );
    assert_eq!(activity_update(&device, "BAT1", &config), None);
    let discharging = Device { state: 2, time_to_empty: 600, time_to_full: 0, ..device };
    assert_eq!(
        activity_update(&discharging, "BAT0", &config),
        Some(ActivityUpdate {
            charging: false,
            state: State::Discharging,
            time_to_empty: 600,
            time_to_full: 0,
        })
    );
}

#[test]
fn the_history_requests_follow_the_configuration() {
    assert_eq!(
        charge_history_request(&PowerConfig::default()),
        HistoryRequest { kind: HistoryType::Charge, timespan: 36000, resolution: 600 }
    );
    let short = PowerConfig { max_duration_secs: 59, ..PowerConfig::default() };
    assert_eq!(
        charge_history_request(&short),
        HistoryRequest { kind: HistoryType::Charge, timespan: 59, resolution: 0 }
    );
    assert_eq!(
        rate_history_request(),
        HistoryRequest { kind: HistoryType::Rate, timespan: 100, resolution: 10 }
    );
}

#[test]
fn a_restart_shuts_down_resets_and_starts_every_producer() {
    assert_eq!(restart_producers(0), vec![RuntimeStep::Shutdown, RuntimeStep::Reset]);
    assert_eq!(
        restart_producers(3),
        vec![
            RuntimeStep::Shutdown,
            RuntimeStep::Reset,
            RuntimeStep::Start(0),
            RuntimeStep::Start(1),
            RuntimeStep::Start(2),
        ]
    );
}

#[test]
fn a_runtime_names_its_tasks_in_order() {
    let mut runtime = ProducerRuntime::new();
    assert_eq!(runtime.generation(), 0);
    assert_eq!(runtime.spawn(), Some(0));
    assert_eq!(runtime.spawn(), Some(1));
    assert_eq!(runtime.running(), vec![0, 1]);
}

#[test]
fn a_clean_shutdown_leaves_no_task() {
    let mut runtime = ProducerRuntime::new();
    let a = runtime.spawn().unwrap();
    let b = runtime.spawn().unwrap();
    assert_eq!(runtime.shutdown(), vec![0, 1]);
    assert_eq!(runtime.spawn(), None);
    runtime.task_exited(b);
    runtime.task_exited(a);
    assert_eq!(runtime.shutdown_outcome(), ShutdownOutcome::Clean);
    runtime.reset();
    assert_eq!(runtime.generation(), 1);
    assert_eq!(runtime.spawn(), Some(0));
}

#[test]
fn a_reset_goes_ahead_after_a_timeout() {
    let mut runtime = ProducerRuntime::new();
    runtime.spawn();
    runtime.spawn();
    runtime.spawn();
    runtime.shutdown();
    runtime.task_exited(1);
    runtime.task_exited(7);
    assert_eq!(runtime.shutdown_outcome(), ShutdownOutcome::TimedOut { running: vec![0, 2] });
    runtime.reset();
    assert_eq!(runtime.running(), Vec::<u64>::new());
    assert_eq!(runtime.shutdown_outcome(), ShutdownOutcome::Clean);
    assert_eq!(runtime.generation(), 1);
}

#[test]
fn the_first_word_names_the_command() {
    assert_eq!(cli_command("list"), Ok(CliCommand::List));
    assert_eq!(cli_command("list all of them"), Ok(CliCommand::List));
    assert_eq!(cli_command("help"), Ok(CliCommand::Help));
    assert_eq!(cli_command("help list"), Ok(CliCommand::Help));
}

#[test]
fn an_unknown_command_repeats_the_line() {
    assert_eq!(cli_command("lists"), Err("Unknown command: lists".to_string()));
    assert_eq!(cli_command("show me"), Err("Unknown command: show me".to_string()));
    assert_eq!(cli_command(" list"), Err("Unknown command:  list".to_string()));
    assert_eq!(cli_command(""), Err("Unknown command: ".to_string()));
    assert_eq!(cli_command("List"), Err("Unknown command: List".to_string()));
}

#[test]
fn the_help_text_names_the_commands() {
    assert_eq!(help_text(), "Commands: \n    list: list the available batteries");
}

#[test]
fn a_window_map_keeps_insertion_order_and_replaces_in_place() {
    let mut map: WindowMap<u8> = WindowMap::new();
    assert!(map.is_empty());
    map.insert("b".to_string(), vec![1]);
    map.insert("a".to_string(), vec![2, 3]);
    map.insert("b".to_string(), vec![4, 5, 6]);
    assert_eq!(map.len(), 2);
    assert!(!map.is_empty());
    assert_eq!(map.counts(), vec![("b", 3usize), ("a", 2)]);
    assert_eq!(map.get("b"), Some(&vec![4, 5, 6]));
    assert_eq!(map.get("a"), Some(&vec![2, 3]));
    assert_eq!(map.get("c"), None);
    assert!(map.contains_key("a"));
    assert!(!map.contains_key(""));
    assert_eq!(map.entry(1), ("a", &vec![2, 3]));
}
