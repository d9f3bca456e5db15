use dynisland_reconcile::config::music::{ArtistMode, MusicConfig};
use dynisland_reconcile::config::power::PowerConfig;
use dynisland_reconcile::device::State;
use dynisland_reconcile::label::{
    decimal, fill_color, time_label, tooltip, BatterySettings, MusicSettings, PowerSettings,
    TimeLabel,
};
use dynisland_reconcile::text::parse_index;

fn label(text: &str, width_chars: i32) -> TimeLabel {
    TimeLabel { text: text.to_string(), width_chars }
}

#[test]
fn decimal_writes_without_leading_zeros() {
    assert_eq!(decimal(0), "0");
    assert_eq!(decimal(9), "9");
    assert_eq!(decimal(10), "10");
    assert_eq!(decimal(1205), "1205");
    assert_eq!(decimal(u64::MAX), "18446744073709551615");
}

#[test]
fn decimal_and_parse_index_undo_each_other() {
    for n in [0u64, 1, 9, 10, 99, 100, 12345, 4294967295, u64::MAX] {
        assert_eq!(decimal(n), n.to_string());
        assert_eq!(parse_index(&decimal(n)), Some(n as usize));
    }
}

#[test]
fn a_full_battery_says_so() {
    assert_eq!(time_label(State::FullyCharged, 0, 0), label("Fully Charged", 12));
    assert_eq!(time_label(State::FullyCharged, 500, 4000), label("Fully Charged", 12));
}

#[test]
fn a_charging_battery_shows_the_time_to_full() {
    assert_eq!(time_label(State::Charging, 0, 0), label("Charging", 7));
    assert_eq!(time_label(State::Charging, 999, 0), label("Charging", 7));
    assert_eq!(time_label(State::Charging, 0, 5400), label("1h30m to full", 12));
    assert_eq!(time_label(State::Charging, 0, 59), label("0h0m to full", 12));
    assert_eq!(time_label(State::Charging, 0, 36_000 + 59 * 60 + 59), label("10h59m to full", 12));
}

#[test]
fn any_other_state_shows_the_time_to_empty() {
    assert_eq!(time_label(State::Discharging, 0, 0), label("Discharging", 10));
    assert_eq!(time_label(State::Discharging, 7260, 0), label("2h1m to empty", 13));
    assert_eq!(time_label(State::Unknown, 0, 100), label("Discharging", 10));
    assert_eq!(time_label(State::Empty, 60, 100), label("0h1m to empty", 13));
    assert_eq!(time_label(State::PendingCharge, 3600, 100), label("1h0m to empty", 13));
    assert_eq!(
        time_label(State::PendingDischarge, u64::MAX, 0),
        label("5124095576030431h0m to empty", 13)
    );
}

#[test]
fn the_fill_colour_follows_charging_then_low() {
    let config = PowerConfig::default();
    assert_eq!(fill_color(&config, true, false), "#2EE81AFF");
    assert_eq!(fill_color(&config, true, true), "#2EE81AFF");
    assert_eq!(fill_color(&config, false, true), "#FDC400FF");
    assert_eq!(fill_color(&config, false, false), "white");
}

#[test]
fn an_empty_name_gives_no_tooltip() {
    assert_eq!(tooltip(&PowerConfig::default()), None);
    let named = PowerConfig { name: "Mouse".to_string(), ..PowerConfig::default() };
    assert_eq!(tooltip(&named), Some("Mouse"));
}

#[test]
fn a_power_configuration_sets_both_battery_views_and_the_graph() {
    let config = PowerConfig {
        name: "Mouse".to_string(),
        max_duration_secs: 7200,
        draw_bars: false,
        ..PowerConfig::default()
    };
    let battery = BatterySettings {
        charging_color: "#2EE81AFF".to_string(),
        normal_color: "white".to_string(),
        low_battery_color: "#FDC400FF".to_string(),
        tooltip: Some("Mouse".to_string()),
        background_color: "#E6E6E699".to_string(),
        percentage_markup:
            "<span font_desc=\"Monospace Bold 11\" foreground=\"#FFFFFF00\">{}</span>".to_string(),
    };
    assert_eq!(
        config.apply_to(),
        PowerSettings {
            minimal: battery.clone(),
            compact: battery,
            draw_bars: false,
            max_duration_secs: 7200,
        }
    );
    assert_eq!(PowerConfig::default().apply_to().minimal.tooltip, None);
}

#[test]
fn a_music_configuration_sets_the_speed_and_the_artist_mode() {
    assert_eq!(
        MusicConfig::default().apply_to(),
        MusicSettings { scrolling_label_speed: 30.0f32.to_bits(), artist_mode: ArtistMode::Hidden }
    );
    let config = MusicConfig {
        scrolling_label_speed: 12.5f32.to_bits(),
        compact_artist_mode: ArtistMode::Leading,
        ..MusicConfig::default()
    };
    let settings = config.apply_to();
    assert_eq!(f32::from_bits(settings.scrolling_label_speed), 12.5);
    assert_eq!(settings.artist_mode, ArtistMode::Leading);
}
