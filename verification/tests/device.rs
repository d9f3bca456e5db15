use dynisland_reconcile::device::{
    BatteryLevel, Device, DeviceError, DeviceType, HistoryEntry, HistoryType, State,
    StatisticsEntry, StatisticsType, Technology, WarningLevel,
};

fn reading() -> Device {
    Device {
        battery_level: 1,
        state: 2,
        technology: 1,
        time_to_empty: 5400,
        time_to_full: 0,
        type_: 2,
        update_time: 1_700_000_000,
        warning_level: 1,
    }
}

#[test]
fn the_states_are_numbered_from_zero() {
    assert_eq!(State::from(0), State::Unknown);
    assert_eq!(State::from(1), State::Charging);
    assert_eq!(State::from(2), State::Discharging);
    assert_eq!(State::from(3), State::Empty);
    assert_eq!(State::from(4), State::FullyCharged);
    assert_eq!(State::from(5), State::PendingCharge);
    assert_eq!(State::from(6), State::PendingDischarge);
    assert_eq!(State::from(7), State::Unknown);
    assert_eq!(State::from(u32::MAX), State::Unknown);
}

#[test]
fn the_battery_levels_are_numbered_from_zero() {
    assert_eq!(BatteryLevel::from(0), BatteryLevel::Unknown);
    assert_eq!(BatteryLevel::from(1), BatteryLevel::Unused);
    assert_eq!(BatteryLevel::from(2), BatteryLevel::Unknown2);
    assert_eq!(BatteryLevel::from(3), BatteryLevel::Low);
    assert_eq!(BatteryLevel::from(4), BatteryLevel::Critical);
    assert_eq!(BatteryLevel::from(5), BatteryLevel::Unknown5);
    assert_eq!(BatteryLevel::from(6), BatteryLevel::Normal);
    assert_eq!(BatteryLevel::from(7), BatteryLevel::High);
    assert_eq!(BatteryLevel::from(8), BatteryLevel::Full);
    assert_eq!(BatteryLevel::from(9), BatteryLevel::Unknown);
}

#[test]
fn the_technologies_are_numbered_from_zero() {
    assert_eq!(Technology::from(0), Technology::Unknown);
    assert_eq!(Technology::from(1), Technology::LithiumIon);
    assert_eq!(Technology::from(2), Technology::LithiumPolymer);
    assert_eq!(Technology::from(3), Technology::LithiumIronPhosphate);
    assert_eq!(Technology::from(4), Technology::LeadAcid);
    assert_eq!(Technology::from(5), Technology::NickelCadmium);
    assert_eq!(Technology::from(6), Technology::NickelMetalHydride);
    assert_eq!(Technology::from(7), Technology::Unknown);
}

#[test]
fn the_warning_levels_are_numbered_from_zero() {
    assert_eq!(WarningLevel::from(0), WarningLevel::Unknown);
    assert_eq!(WarningLevel::from(1), WarningLevel::Calm);
    assert_eq!(WarningLevel::from(2), WarningLevel::Discharging);
    assert_eq!(WarningLevel::from(3), WarningLevel::Low);
    assert_eq!(WarningLevel::from(4), WarningLevel::Critical);
    assert_eq!(WarningLevel::from(5), WarningLevel::Action);
    assert_eq!(WarningLevel::from(6), WarningLevel::Unknown);
}

#[test]
fn the_device_types_are_numbered_from_zero() {
    let all = [
        DeviceType::Unknown,
        DeviceType::LinePower,
        DeviceType::Battery,
        DeviceType::Ups,
        DeviceType::Monitor,
        DeviceType::Mouse,
        DeviceType::Keyboard,
        DeviceType::Pda,
        DeviceType::Phone,
        DeviceType::MediaPlayer,
        DeviceType::Tablet,
        DeviceType::Computer,
        DeviceType::GamingInput,
        DeviceType::Pen,
        DeviceType::Touchpad,
        DeviceType::Modem,
        DeviceType::Network,
        DeviceType::Headset,
        DeviceType::Speakers,
        DeviceType::Headphones,
        DeviceType::Video,
        DeviceType::OtherAudio,
        DeviceType::RemoteControl,
        DeviceType::Printer,
        DeviceType::Scanner,
        DeviceType::Camera,
        DeviceType::Wearable,
        DeviceType::Toy,
        DeviceType::BluetoothGeneric,
    ];
    for (code, kind) in all.iter().enumerate() {
        assert_eq!(DeviceType::from(code as u32), *kind);
    }
    assert_eq!(DeviceType::from(29), DeviceType::Unknown);
    assert_eq!(DeviceType::from(u32::MAX), DeviceType::Unknown);
}

#[test]
fn the_history_and_statistics_types_have_their_bus_names() {
    assert_eq!(HistoryType::Rate.to_string(), "rate");
    assert_eq!(HistoryType::Charge.to_string(), "charge");
    assert_eq!(HistoryType::Charge.as_str(), "charge");
    assert_eq!(StatisticsType::Charging.to_string(), "charging");
    assert_eq!(StatisticsType::Discharging.to_string(), "discharging");
    assert_eq!(StatisticsType::Discharging.as_str(), "discharging");
}

#[test]
fn a_reading_is_interpreted_field_by_field() {
    let device = reading();
    assert_eq!(device.battery_level(), BatteryLevel::Unused);
    assert_eq!(device.state(), State::Discharging);
    assert_eq!(device.technology(), Technology::LithiumIon);
    assert_eq!(device.type_(), DeviceType::Battery);
    assert_eq!(device.warning_level(), WarningLevel::Calm);
    assert_eq!(device.update_time(), 1_700_000_000);
    assert_eq!(device.time_to_empty(), Ok(5400));
    assert_eq!(device.time_to_full(), Ok(0));
}

#[test]
fn a_negative_time_is_an_error() {
    let device = Device { time_to_empty: -1, time_to_full: i64::MIN, ..reading() };
    assert_eq!(device.time_to_empty(), Err(DeviceError::NegativeTimeToEmpty));
    assert_eq!(device.time_to_full(), Err(DeviceError::NegativeTimeToFull));
    assert_eq!(DeviceError::NegativeTimeToEmpty.to_string(), "time to empty is negative");
    assert_eq!(DeviceError::NegativeTimeToFull.to_string(), "time to full is negative");
    let device = Device { time_to_empty: i64::MAX, ..reading() };
    assert_eq!(device.time_to_empty(), Ok(i64::MAX as u64));
}

#[test]
fn the_history_comes_out_oldest_first() {
    let raw = vec![
        (300u32, 80.0f64.to_bits(), 2u32),
        (200, 90.5f64.to_bits(), 1),
        (100, 100.0f64.to_bits(), 9),
    ];
    let history = Device::get_history(&raw);
    assert_eq!(
        history,
        vec![
            HistoryEntry { timestamp: 100, value: 100.0f64.to_bits(), state: State::Unknown },
            HistoryEntry { timestamp: 200, value: 90.5f64.to_bits(), state: State::Charging },
            HistoryEntry { timestamp: 300, value: 80.0f64.to_bits(), state: State::Discharging },
        ]
    );
    assert_eq!(f64::from_bits(history[1].value), 90.5);
    assert!(Device::get_history(&Vec::new()).is_empty());
}

#[test]
fn the_statistics_keep_their_order() {
    let raw = vec![(1.5f64.to_bits(), 50.0f64.to_bits()), (2.5f64.to_bits(), 75.0f64.to_bits())];
    assert_eq!(
        Device::get_statistics(&raw),
        vec![
            StatisticsEntry { value: 1.5f64.to_bits(), accuracy: 50.0f64.to_bits() },
            StatisticsEntry { value: 2.5f64.to_bits(), accuracy: 75.0f64.to_bits() },
        ]
    );
}
