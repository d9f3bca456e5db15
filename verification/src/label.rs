//! What the widgets of an activity show: the settings that a configuration
//! gives them, the time label, the fill colour of the battery and the
//! tooltip.

use crate::config::music::{ArtistMode, MusicConfig};
use crate::config::power::PowerConfig;
use crate::device::State;
use crate::text::{all_digits, decimal_value, digit_value, index_digits, index_of_text, is_digit};
use vstd::prelude::*;
use vstd::string::StringExecFns;

verus! {

/// The ASCII digit for a number below ten.
pub open spec fn digit_char(d: nat) -> char {
    if d == 0 {
        '0'
    } else if d == 1 {
        '1'
    } else if d == 2 {
        '2'
    } else if d == 3 {
        '3'
    } else if d == 4 {
        '4'
    } else if d == 5 {
        '5'
    } else if d == 6 {
        '6'
    } else if d == 7 {
        '7'
    } else if d == 8 {
        '8'
    } else {
        '9'
    }
}

/// A number in base ten, without leading zeros.
pub open spec fn decimal_text(n: nat) -> Seq<char>
    decreases n,
{
    if n < 10 {
        seq![digit_char(n)]
    } else {
        decimal_text(n / 10).push(digit_char(n % 10))
    }
}

/// The text of a number is made of digits and denotes the number.
pub proof fn lemma_decimal_text(n: nat)
    ensures
        decimal_text(n).len() > 0,
        all_digits(decimal_text(n)),
        decimal_value(decimal_text(n)) == n,
    decreases n,
{
    let text = decimal_text(n);
    if n < 10 {
        assert(text.drop_last() =~= Seq::<char>::empty());
        assert(decimal_value(text.drop_last()) == 0);
        assert(digit_value(text.last()) == n);
    } else {
        lemma_decimal_text(n / 10);
        let front = decimal_text(n / 10);
        assert(text.drop_last() =~= front);
        assert(digit_value(text.last()) == n % 10);
        assert forall|i: int| 0 <= i < text.len() implies is_digit(#[trigger] text[i]) by {
            if i < front.len() {
                assert(text[i] == front[i]);
            }
        }
    }
}

/// Reading the text of a number as an index gives the number back.
pub proof fn lemma_decimal_round_trip(n: usize)
    ensures
        index_of_text(decimal_text(n as nat)) == Some(n),
{
    let text = decimal_text(n as nat);
    lemma_decimal_text(n as nat);
    assert(is_digit(text[0]));
    assert(index_digits(text) == text);
}

/// One digit as a text.
fn digit_str(d: u64) -> (text: &'static str)
    requires
        d < 10,
    ensures
        text@ == seq![digit_char(d as nat)],
{
    proof {
        reveal_strlit("0");
        reveal_strlit("1");
        reveal_strlit("2");
        reveal_strlit("3");
        reveal_strlit("4");
        reveal_strlit("5");
        reveal_strlit("6");
        reveal_strlit("7");
        reveal_strlit("8");
        reveal_strlit("9");
    }
    let text = match d {
        0 => "0",
        1 => "1",
        2 => "2",
        3 => "3",
        4 => "4",
        5 => "5",
        6 => "6",
        7 => "7",
        8 => "8",
        _ => "9",
    };
    assert(text@ =~= seq![digit_char(d as nat)]);
    text
}

/// Writes a number in base ten.
pub fn decimal(n: u64) -> (text: String)
    ensures
        text@ == decimal_text(n as nat),
    decreases n,
{
    if n < 10 {
        digit_str(n).to_owned()
    } else {
        let front = decimal(n / 10);
        let last = digit_str(n % 10);
        let text = front.concat(last);
        assert(text@ =~= decimal_text((n / 10) as nat).push(digit_char((n % 10) as nat)));
        text
    }
}

/// The time label of the compact view and the width that is reserved for it,
/// in characters.
#[derive(Debug, Clone, PartialEq, Eq)]
pub struct TimeLabel {
    pub text: String,
    pub width_chars: i32,
}

/// A stretch of seconds in hours and minutes, followed by what it leads to.
pub open spec fn duration_text(seconds: u64, goal: Seq<char>) -> Seq<char> {
    decimal_text((seconds / 3600) as nat) + "h"@ + decimal_text(((seconds % 3600) / 60) as nat)
        + goal
}

/// The text of the time label. A device that charges or is full shows the
/// time to full, any other the time to empty; a time of zero is not shown.
pub open spec fn time_label_text(state: State, time_to_empty: u64, time_to_full: u64) -> Seq<char> {
    if state == State::FullyCharged {
        "Fully Charged"@
    } else if state == State::Charging {
        if time_to_full == 0 {
            "Charging"@
        } else {
            duration_text(time_to_full, "m to full"@)
        }
    } else if time_to_empty == 0 {
        "Discharging"@
    } else {
        duration_text(time_to_empty, "m to empty"@)
    }
}

/// The width reserved for the time label, in characters.
pub open spec fn time_label_width(state: State, time_to_empty: u64, time_to_full: u64) -> i32 {
    if state == State::FullyCharged {
        12
    } else if state == State::Charging {
        if time_to_full == 0 {
            7
        } else {
            12
        }
    } else if time_to_empty == 0 {
        10
    } else {
        13
    }
}

/// Writes a stretch of seconds in hours and minutes, followed by `goal`.
fn duration(seconds: u64, goal: &str) -> (text: String)
    ensures
        text@ == duration_text(seconds, goal@),
{
    let hours = decimal(seconds / 3600);
    let minutes = decimal((seconds % 3600) / 60);
    hours.concat("h").concat(minutes.as_str()).concat(goal)
}

/// The time label for a device in `state` with the given times in seconds.
pub fn time_label(state: State, time_to_empty: u64, time_to_full: u64) -> (label: TimeLabel)
    ensures
        label.text@ == time_label_text(state, time_to_empty, time_to_full),
        label.width_chars == time_label_width(state, time_to_empty, time_to_full),
{
    if state == State::FullyCharged {
        TimeLabel { text: "Fully Charged".to_owned(), width_chars: 12 }
    } else if state == State::Charging {
        if time_to_full == 0 {
            TimeLabel { text: "Charging".to_owned(), width_chars: 7 }
        } else {
            TimeLabel { text: duration(time_to_full, "m to full"), width_chars: 12 }
        }
    } else if time_to_empty == 0 {
        TimeLabel { text: "Discharging".to_owned(), width_chars: 10 }
    } else {
        TimeLabel { text: duration(time_to_empty, "m to empty"), width_chars: 13 }
    }
}

/// The colour that fills the battery: the charging colour while charging,
/// else the low colour while the charge is low, else the normal colour.
pub fn fill_color(config: &PowerConfig, charging: bool, low: bool) -> (color: &str)
    ensures
        color@ == if charging {
            config.charging_color@
        } else if low {
            config.low_color@
        } else {
            config.normal_color@
        },
{
    if charging {
        config.charging_color.as_str()
    } else if low {
        config.low_color.as_str()
    } else {
        config.normal_color.as_str()
    }
}

/// The tooltip of the activity: its name, unless that is empty.
pub fn tooltip(config: &PowerConfig) -> (text: Option<&str>)
    ensures
        match text {
            Some(name) => name@ == config.name@ && config.name@.len() > 0,
            None => config.name@.len() == 0,
        },
{
    let name = config.name.as_str();
    if name.unicode_len() == 0 {
        None
    } else {
        Some(name)
    }
}

/// The settings of a view that shows the battery.
#[derive(Debug, Clone, PartialEq, Eq)]
pub struct BatterySettings {
    pub charging_color: String,
    pub normal_color: String,
    pub low_battery_color: String,
    pub tooltip: Option<String>,
    pub background_color: String,
    pub percentage_markup: String,
}

/// The settings that a configuration gives the widgets of a power activity.
#[derive(Debug, Clone, PartialEq, Eq)]
pub struct PowerSettings {
    /// The minimal view.
    pub minimal: BatterySettings,
    /// The compact view.
    pub compact: BatterySettings,
    /// Whether the graph of the expanded view draws its grid lines.
    pub draw_bars: bool,
    /// How far back the graph of the expanded view reaches, in seconds.
    pub max_duration_secs: u32,
}

/// Whether `settings` are what `config` gives a view that shows the battery.
pub open spec fn battery_settings_of(settings: BatterySettings, config: PowerConfig) -> bool {
    &&& settings.charging_color@ == config.charging_color@
    &&& settings.normal_color@ == config.normal_color@
    &&& settings.low_battery_color@ == config.low_color@
    &&& settings.background_color@ == config.background_color@
    &&& settings.percentage_markup@ == config.percentage_pango_markup@
    &&& match settings.tooltip {
        Some(text) => text@ == config.name@ && config.name@.len() > 0,
        None => config.name@.len() == 0,
    }
}

/// The settings of one view that shows the battery.
fn battery_settings(config: &PowerConfig) -> (settings: BatterySettings)
    ensures
        battery_settings_of(settings, *config),
{
    BatterySettings {
        charging_color: config.charging_color.clone(),
        normal_color: config.normal_color.clone(),
        low_battery_color: config.low_color.clone(),
        tooltip: match tooltip(config) {
            Some(name) => Some(name.to_owned()),
            None => None,
        },
        background_color: config.background_color.clone(),
        percentage_markup: config.percentage_pango_markup.clone(),
    }
}

impl PowerConfig {
    /// The settings that this configuration gives the widgets of its
    /// activity: the minimal and the compact view get the colours, the
    /// markup and the tooltip, the graph its grid and its reach.
    pub fn apply_to(&self) -> (settings: PowerSettings)
        ensures
            battery_settings_of(settings.minimal, *self),
            battery_settings_of(settings.compact, *self),
            settings.draw_bars == self.draw_bars,
            settings.max_duration_secs == self.max_duration_secs,
    {
        PowerSettings {
            minimal: battery_settings(self),
            compact: battery_settings(self),
            draw_bars: self.draw_bars,
            max_duration_secs: self.max_duration_secs,
        }
    }
}

/// The properties that a configuration sets on a music activity.
#[derive(Debug, Clone, Copy, PartialEq, Eq, Structural)]
pub struct MusicSettings {
    /// The speed of the scrolling labels, as the bits of an IEEE 754
    /// single-precision number.
    pub scrolling_label_speed: u32,
    pub artist_mode: ArtistMode,
}

impl MusicConfig {
    /// The properties that this configuration sets on its activity.
    pub fn apply_to(&self) -> (settings: MusicSettings)
        ensures
            settings == (MusicSettings {
                scrolling_label_speed: self.scrolling_label_speed,
                artist_mode: self.compact_artist_mode,
            }),
    {
        MusicSettings {
            scrolling_label_speed: self.scrolling_label_speed,
            artist_mode: self.compact_artist_mode,
        }
    }
}

} // verus!
