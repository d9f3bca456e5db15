//! Typed readings of a power device's raw bus properties.
//!
//! The bus hands out numbers; this module says what they mean. Reading the
//! bus is left to the caller.

use vstd::prelude::*;
use vstd::std_specs::convert::FromSpecImpl;

verus! {

/// Which history of a device to ask for.
#[derive(Debug, Clone, Copy, PartialEq, Eq, Structural)]
pub enum HistoryType {
    Rate,
    Charge,
}

impl HistoryType {
    /// The name under which the bus knows the history.
    pub open spec fn name(self) -> Seq<char> {
        match self {
            HistoryType::Rate => "rate"@,
            HistoryType::Charge => "charge"@,
        }
    }

    /// The name under which the bus knows the history.
    pub fn as_str(&self) -> (name: &'static str)
        ensures
            name@ == self.name(),
    {
        match self {
            HistoryType::Rate => "rate",
            HistoryType::Charge => "charge",
        }
    }

    /// The name under which the bus knows the history, as an owned text.
    pub fn to_string(&self) -> (name: String)
        ensures
            name@ == self.name(),
    {
        self.as_str().to_owned()
    }
}

/// Which statistics of a device to ask for.
#[derive(Debug, Clone, Copy, PartialEq, Eq, Structural)]
pub enum StatisticsType {
    Charging,
    Discharging,
}

impl StatisticsType {
    /// The name under which the bus knows the statistics.
    pub open spec fn name(self) -> Seq<char> {
        match self {
            StatisticsType::Charging => "charging"@,
            StatisticsType::Discharging => "discharging"@,
        }
    }

    /// The name under which the bus knows the statistics.
    pub fn as_str(&self) -> (name: &'static str)
        ensures
            name@ == self.name(),
    {
        match self {
            StatisticsType::Charging => "charging",
            StatisticsType::Discharging => "discharging",
        }
    }

    /// The name under which the bus knows the statistics, as an owned text.
    pub fn to_string(&self) -> (name: String)
        ensures
            name@ == self.name(),
    {
        self.as_str().to_owned()
    }
}

/// Charging state of a device.
#[derive(Debug, Clone, Copy, PartialEq, Eq, Structural)]
pub enum State {
    Unknown,
    Charging,
    Discharging,
    Empty,
    FullyCharged,
    PendingCharge,
    PendingDischarge,
}

impl State {
    /// The value that a raw code stands for: the variants are numbered from
    /// zero in the order of their declaration, and a code past the last one
    /// reads as `Unknown`.
    pub open spec fn of_code(val: u32) -> State {
        if val == 1 {
            State::Charging
        } else if val == 2 {
            State::Discharging
        } else if val == 3 {
            State::Empty
        } else if val == 4 {
            State::FullyCharged
        } else if val == 5 {
            State::PendingCharge
        } else if val == 6 {
            State::PendingDischarge
        } else {
            State::Unknown
        }
    }
}

impl FromSpecImpl<u32> for State {
    open spec fn obeys_from_spec() -> bool {
        true
    }

    open spec fn from_spec(val: u32) -> State {
        State::of_code(val)
    }
}

impl From<u32> for State {
    fn from(val: u32) -> (value: State) {
        match val {
            0 => State::Unknown,
            1 => State::Charging,
            2 => State::Discharging,
            3 => State::Empty,
            4 => State::FullyCharged,
            5 => State::PendingCharge,
            6 => State::PendingDischarge,
            _ => State::Unknown,
        }
    }
}

/// Coarse charge level, for devices that report no percentage.
/// `Unused` says that the device reports a percentage instead.
#[derive(Debug, Clone, Copy, PartialEq, Eq, Structural)]
pub enum BatteryLevel {
    Unknown,
    Unused,
    Unknown2,
    Low,
    Critical,
    Unknown5,
    Normal,
    High,
    Full,
}

impl BatteryLevel {
    /// The value that a raw code stands for: the variants are numbered from
    /// zero in the order of their declaration, and a code past the last one
    /// reads as `Unknown`.
    pub open spec fn of_code(val: u32) -> BatteryLevel {
        if val == 1 {
            BatteryLevel::Unused
        } else if val == 2 {
            BatteryLevel::Unknown2
        } else if val == 3 {
            BatteryLevel::Low
        } else if val == 4 {
            BatteryLevel::Critical
        } else if val == 5 {
            BatteryLevel::Unknown5
        } else if val == 6 {
            BatteryLevel::Normal
        } else if val == 7 {
            BatteryLevel::High
        } else if val == 8 {
            BatteryLevel::Full
        } else {
            BatteryLevel::Unknown
        }
    }
}

impl FromSpecImpl<u32> for BatteryLevel {
    open spec fn obeys_from_spec() -> bool {
        true
    }

    open spec fn from_spec(val: u32) -> BatteryLevel {
        BatteryLevel::of_code(val)
    }
}

impl From<u32> for BatteryLevel {
    fn from(val: u32) -> (value: BatteryLevel) {
        match val {
            0 => BatteryLevel::Unknown,
            1 => BatteryLevel::Unused,
            2 => BatteryLevel::Unknown2,
            3 => BatteryLevel::Low,
            4 => BatteryLevel::Critical,
            5 => BatteryLevel::Unknown5,
            6 => BatteryLevel::Normal,
            7 => BatteryLevel::High,
            8 => BatteryLevel::Full,
            _ => BatteryLevel::Unknown,
        }
    }
}

/// Chemistry of a battery.
#[derive(Debug, Clone, Copy, PartialEq, Eq, Structural)]
pub enum Technology {
    Unknown,
    LithiumIon,
    LithiumPolymer,
    LithiumIronPhosphate,
    LeadAcid,
    NickelCadmium,
    NickelMetalHydride,
}

impl Technology {
    /// The value that a raw code stands for: the variants are numbered from
    /// zero in the order of their declaration, and a code past the last one
    /// reads as `Unknown`.
    pub open spec fn of_code(val: u32) -> Technology {
        if val == 1 {
            Technology::LithiumIon
        } else if val == 2 {
            Technology::LithiumPolymer
        } else if val == 3 {
            Technology::LithiumIronPhosphate
        } else if val == 4 {
            Technology::LeadAcid
        } else if val == 5 {
            Technology::NickelCadmium
        } else if val == 6 {
            Technology::NickelMetalHydride
        } else {
            Technology::Unknown
        }
    }
}

impl FromSpecImpl<u32> for Technology {
    open spec fn obeys_from_spec() -> bool {
        true
    }

    open spec fn from_spec(val: u32) -> Technology {
        Technology::of_code(val)
    }
}

impl From<u32> for Technology {
    fn from(val: u32) -> (value: Technology) {
        match val {
            0 => Technology::Unknown,
            1 => Technology::LithiumIon,
            2 => Technology::LithiumPolymer,
            3 => Technology::LithiumIronPhosphate,
            4 => Technology::LeadAcid,
            5 => Technology::NickelCadmium,
            6 => Technology::NickelMetalHydride,
            _ => Technology::Unknown,
        }
    }
}

/// How urgent the charge of a device is. `Calm` says that there is no
/// warning.
#[derive(Debug, Clone, Copy, PartialEq, Eq, Structural)]
pub enum WarningLevel {
    Unknown,
    Calm,
    Discharging,
    Low,
    Critical,
    Action,
}

impl WarningLevel {
    /// The value that a raw code stands for: the variants are numbered from
    /// zero in the order of their declaration, and a code past the last one
    /// reads as `Unknown`.
    pub open spec fn of_code(val: u32) -> WarningLevel {
        if val == 1 {
            WarningLevel::Calm
        } else if val == 2 {
            WarningLevel::Discharging
        } else if val == 3 {
            WarningLevel::Low
        } else if val == 4 {
            WarningLevel::Critical
        } else if val == 5 {
            WarningLevel::Action
        } else {
            WarningLevel::Unknown
        }
    }
}

impl FromSpecImpl<u32> for WarningLevel {
    open spec fn obeys_from_spec() -> bool {
        true
    }

    open spec fn from_spec(val: u32) -> WarningLevel {
        WarningLevel::of_code(val)
    }
}

impl From<u32> for WarningLevel {
    fn from(val: u32) -> (value: WarningLevel) {
        match val {
            0 => WarningLevel::Unknown,
            1 => WarningLevel::Calm,
            2 => WarningLevel::Discharging,
            3 => WarningLevel::Low,
            4 => WarningLevel::Critical,
            5 => WarningLevel::Action,
            _ => WarningLevel::Unknown,
        }
    }
}

/// Kind of a device.
#[derive(Debug, Clone, Copy, PartialEq, Eq, Structural)]
pub enum DeviceType {
    Unknown,
    LinePower,
    Battery,
    Ups,
    Monitor,
    Mouse,
    Keyboard,
    Pda,
    Phone,
    MediaPlayer,
    Tablet,
    Computer,
    GamingInput,
    Pen,
    Touchpad,
    Modem,
    Network,
    Headset,
    Speakers,
    Headphones,
    Video,
    OtherAudio,
    RemoteControl,
    Printer,
    Scanner,
    Camera,
    Wearable,
    Toy,
    BluetoothGeneric,
}

impl DeviceType {
    /// The value that a raw code stands for: the variants are numbered from
    /// zero in the order of their declaration, and a code past the last one
    /// reads as `Unknown`.
    pub open spec fn of_code(val: u32) -> DeviceType {
        if val == 1 {
            DeviceType::LinePower
        } else if val == 2 {
            DeviceType::Battery
        } else if val == 3 {
            DeviceType::Ups
        } else if val == 4 {
            DeviceType::Monitor
        } else if val == 5 {
            DeviceType::Mouse
        } else if val == 6 {
            DeviceType::Keyboard
        } else if val == 7 {
            DeviceType::Pda
        } else if val == 8 {
            DeviceType::Phone
        } else if val == 9 {
            DeviceType::MediaPlayer
        } else if val == 10 {
            DeviceType::Tablet
        } else if val == 11 {
            DeviceType::Computer
        } else if val == 12 {
            DeviceType::GamingInput
        } else if val == 13 {
            DeviceType::Pen
        } else if val == 14 {
            DeviceType::Touchpad
        } else if val == 15 {
            DeviceType::Modem
        } else if val == 16 {
            DeviceType::Network
        } else if val == 17 {
            DeviceType::Headset
        } else if val == 18 {
            DeviceType::Speakers
        } else if val == 19 {
            DeviceType::Headphones
        } else if val == 20 {
            DeviceType::Video
        } else if val == 21 {
            DeviceType::OtherAudio
        } else if val == 22 {
            DeviceType::RemoteControl
        } else if val == 23 {
            DeviceType::Printer
        } else if val == 24 {
            DeviceType::Scanner
        } else if val == 25 {
            DeviceType::Camera
        } else if val == 26 {
            DeviceType::Wearable
        } else if val == 27 {
            DeviceType::Toy
        } else if val == 28 {
            DeviceType::BluetoothGeneric
        } else {
            DeviceType::Unknown
        }
    }
}

impl FromSpecImpl<u32> for DeviceType {
    open spec fn obeys_from_spec() -> bool {
        true
    }

    open spec fn from_spec(val: u32) -> DeviceType {
        DeviceType::of_code(val)
    }
}

impl From<u32> for DeviceType {
    fn from(val: u32) -> (value: DeviceType) {
        match val {
            0 => DeviceType::Unknown,
            1 => DeviceType::LinePower,
            2 => DeviceType::Battery,
            3 => DeviceType::Ups,
            4 => DeviceType::Monitor,
            5 => DeviceType::Mouse,
            6 => DeviceType::Keyboard,
            7 => DeviceType::Pda,
            8 => DeviceType::Phone,
            9 => DeviceType::MediaPlayer,
            10 => DeviceType::Tablet,
            11 => DeviceType::Computer,
            12 => DeviceType::GamingInput,
            13 => DeviceType::Pen,
            14 => DeviceType::Touchpad,
            15 => DeviceType::Modem,
            16 => DeviceType::Network,
            17 => DeviceType::Headset,
            18 => DeviceType::Speakers,
            19 => DeviceType::Headphones,
            20 => DeviceType::Video,
            21 => DeviceType::OtherAudio,
            22 => DeviceType::RemoteControl,
            23 => DeviceType::Printer,
            24 => DeviceType::Scanner,
            25 => DeviceType::Camera,
            26 => DeviceType::Wearable,
            27 => DeviceType::Toy,
            28 => DeviceType::BluetoothGeneric,
            _ => DeviceType::Unknown,
        }
    }
}

/// One point of a device's history.
#[derive(Debug, Clone, Copy, PartialEq, Eq, Structural)]
pub struct HistoryEntry {
    /// Seconds since the Unix epoch.
    pub timestamp: u32,
    /// The value at that time, as the bits of an IEEE 754 double-precision
    /// number.
    pub value: u64,
    /// The state of the device at that time.
    pub state: State,
}

/// One point of a device's statistics. Both numbers are held as the bits of
/// an IEEE 754 double-precision number.
#[derive(Debug, Clone, Copy, PartialEq, Eq, Structural)]
pub struct StatisticsEntry {
    pub value: u64,
    pub accuracy: u64,
}

/// Why a reading cannot be interpreted.
#[derive(Debug, Clone, Copy, PartialEq, Eq, Structural)]
pub enum DeviceError {
    /// The bus reported a negative time to empty.
    NegativeTimeToEmpty,
    /// The bus reported a negative time to full.
    NegativeTimeToFull,
}

impl DeviceError {
    /// The error in words.
    pub open spec fn message(self) -> Seq<char> {
        match self {
            DeviceError::NegativeTimeToEmpty => "time to empty is negative"@,
            DeviceError::NegativeTimeToFull => "time to full is negative"@,
        }
    }

    /// The error in words.
    pub fn to_string(&self) -> (message: String)
        ensures
            message@ == self.message(),
    {
        match self {
            DeviceError::NegativeTimeToEmpty => "time to empty is negative".to_owned(),
            DeviceError::NegativeTimeToFull => "time to full is negative".to_owned(),
        }
    }
}

/// The raw properties of one device, as they were read from the bus.
#[derive(Debug, Clone, Copy, PartialEq, Eq, Structural)]
pub struct Device {
    pub battery_level: u32,
    pub state: u32,
    pub technology: u32,
    /// Seconds until the battery is empty.
    pub time_to_empty: i64,
    /// Seconds until the battery is full.
    pub time_to_full: i64,
    pub type_: u32,
    /// When the properties last changed, in seconds since the Unix epoch.
    pub update_time: u64,
    pub warning_level: u32,
}

/// The history entries that raw `(timestamp, value, state)` triples stand
/// for, the oldest first: the bus lists the newest first.
pub open spec fn history_of(raw: Seq<(u32, u64, u32)>) -> Seq<HistoryEntry> {
    Seq::new(
        raw.len(),
        |i: int|
            HistoryEntry {
                timestamp: raw[raw.len() - 1 - i].0,
                value: raw[raw.len() - 1 - i].1,
                state: State::of_code(raw[raw.len() - 1 - i].2),
            },
    )
}

/// The statistics entries that raw `(value, accuracy)` pairs stand for, in
/// their order.
pub open spec fn statistics_of(raw: Seq<(u64, u64)>) -> Seq<StatisticsEntry> {
    Seq::new(raw.len(), |i: int| StatisticsEntry { value: raw[i].0, accuracy: raw[i].1 })
}

impl Device {
    /// Interprets the answer to a history request.
    pub fn get_history(raw: &Vec<(u32, u64, u32)>) -> (history: Vec<HistoryEntry>)
        ensures
            history@ == history_of(raw@),
    {
        let mut history: Vec<HistoryEntry> = Vec::new();
        let mut left: usize = raw.len();
        while left > 0
            invariant
                left <= raw.len(),
                history@.len() == raw.len() - left,
                forall|i: int| 0 <= i < history@.len() ==> history@[i] == history_of(raw@)[i],
            decreases left,
        {
            left -= 1;
            let entry = &raw[left];
            history.push(
                HistoryEntry { timestamp: entry.0, value: entry.1, state: State::from(entry.2) },
            );
        }
        assert(history@ =~= history_of(raw@));
        history
    }

    /// Interprets the answer to a statistics request.
    pub fn get_statistics(raw: &Vec<(u64, u64)>) -> (statistics: Vec<StatisticsEntry>)
        ensures
            statistics@ == statistics_of(raw@),
    {
        let mut statistics: Vec<StatisticsEntry> = Vec::new();
        let mut i: usize = 0;
        while i < raw.len()
            invariant
                i <= raw.len(),
                statistics@.len() == i,
                forall|k: int| 0 <= k < i ==> statistics@[k] == statistics_of(raw@)[k],
            decreases raw.len() - i,
        {
            let entry = &raw[i];
            statistics.push(StatisticsEntry { value: entry.0, accuracy: entry.1 });
            i += 1;
        }
        assert(statistics@ =~= statistics_of(raw@));
        statistics
    }

    /// The coarse charge level.
    pub fn battery_level(&self) -> (level: BatteryLevel)
        ensures
            level == BatteryLevel::of_code(self.battery_level),
    {
        BatteryLevel::from(self.battery_level)
    }

    /// The charging state.
    pub fn state(&self) -> (state: State)
        ensures
            state == State::of_code(self.state),
    {
        State::from(self.state)
    }

    /// The chemistry of the battery.
    pub fn technology(&self) -> (technology: Technology)
        ensures
            technology == Technology::of_code(self.technology),
    {
        Technology::from(self.technology)
    }

    /// Seconds until the battery is empty. A negative reading is an error.
    pub fn time_to_empty(&self) -> (seconds: Result<u64, DeviceError>)
        ensures
            seconds == if self.time_to_empty < 0 {
                Err::<u64, DeviceError>(DeviceError::NegativeTimeToEmpty)
            } else {
                Ok(self.time_to_empty as u64)
            },
    {
        if self.time_to_empty < 0 {
            return Err(DeviceError::NegativeTimeToEmpty);
        }
        Ok(self.time_to_empty as u64)
    }

    /// Seconds until the battery is full. A negative reading is an error.
    pub fn time_to_full(&self) -> (seconds: Result<u64, DeviceError>)
        ensures
            seconds == if self.time_to_full < 0 {
                Err::<u64, DeviceError>(DeviceError::NegativeTimeToFull)
            } else {
                Ok(self.time_to_full as u64)
            },
    {
        if self.time_to_full < 0 {
            return Err(DeviceError::NegativeTimeToFull);
        }
        Ok(self.time_to_full as u64)
    }

    /// The kind of the device.
    pub fn type_(&self) -> (kind: DeviceType)
        ensures
            kind == DeviceType::of_code(self.type_),
    {
        DeviceType::from(self.type_)
    }

    /// When the properties last changed, in seconds since the Unix epoch.
    pub fn update_time(&self) -> (seconds: u64)
        ensures
            seconds == self.update_time,
    {
        self.update_time
    }

    /// How urgent the charge is.
    pub fn warning_level(&self) -> (level: WarningLevel)
        ensures
            level == WarningLevel::of_code(self.warning_level),
    {
        WarningLevel::from(self.warning_level)
    }
}

} // verus!
