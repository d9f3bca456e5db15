//! The power module: its configuration, the plan by which it brings its
//! activities in line with the configuration, and what it makes of a
//! device's readings.

use crate::config::power::{
    instance_views, DePowerConfigMain, PowerConfig, PowerConfigMain, PowerConfigMainView,
    PowerConfigView,
};
use crate::device::{Device, HistoryType, State};
use crate::diff::{
    activities_to_update, additions, apply_update, lemma_surviving_retained, retained, slots,
    superseded,
};
use crate::identifier::ActivityIdentifier;
use crate::registry::ActivityRegistry;
use crate::text::text_eq;
use vstd::prelude::*;

verus! {

/// Why a configuration was not taken over.
#[derive(Debug, Clone, PartialEq, Eq)]
pub enum ConfigError {
    /// The configuration text could not be read; the parser's message.
    Parse(String),
}

/// One activity with what its watcher and its update loop need.
#[derive(Debug, PartialEq, Eq)]
pub struct WatchedActivity {
    pub id: ActivityIdentifier,
    /// The configuration of the activity.
    pub config: PowerConfig,
    /// Whether the activity stays registered while its device is missing.
    pub keep_registered: bool,
    /// The device to follow; empty for the aggregate device.
    pub device_name: String,
}

/// What a producer run does.
#[derive(Debug)]
pub struct ProducerPlan {
    /// The activities that were unregistered.
    pub to_remove: Vec<ActivityIdentifier>,
    /// The activities to create. An activity is registered only once its
    /// watcher has found its device.
    pub to_create: Vec<ActivityIdentifier>,
    /// Every activity to watch: those that stay, then those to create.
    pub watched: Vec<WatchedActivity>,
}

/// The configuration that is in force for an overlay: with at least one
/// window, so that the module always has an activity. Where no window is
/// configured, the window with the empty name gets one default instance.
pub open spec fn in_force(main: PowerConfigMainView) -> PowerConfigMainView {
    if main.windows == Map::<Seq<char>, Seq<PowerConfigView>>::empty() {
        PowerConfigMainView {
            windows: Map::empty().insert(Seq::<char>::empty(), seq![main.default_conf()]),
            ..main
        }
    } else {
        main
    }
}

/// Whether `watched` is set up as `config` says for its activity.
pub open spec fn set_up(watched: WatchedActivity, config: PowerConfigMainView) -> bool {
    &&& watched.config@ == config.get_for_window(
        watched.id@.window_name,
        watched.id@.instance as int,
    )
    &&& watched.keep_registered == !watched.config.hide_if_missing
    &&& watched.device_name@ == watched.config.battery@
}

/// The power module's own state.
#[derive(Debug)]
pub struct PowerModule {
    /// The name under which the module's activities are known.
    pub name: String,
    /// The configuration in force. It is replaced as a whole.
    pub config: PowerConfigMain,
    /// The activities that are registered.
    pub registry: ActivityRegistry,
}

/// Gives a configuration without windows one default instance on the window
/// with the empty name.
fn with_fallback_window(main: PowerConfigMain) -> (config: PowerConfigMain)
    ensures
        config@ == in_force(main@),
{
    let mut config = main;
    if config.windows.is_empty() {
        let ghost before = config@;
        assert(before.windows =~= Map::empty());
        let mut list: Vec<PowerConfig> = Vec::new();
        list.push(config.default_conf());
        let name = "".to_owned();
        proof {
            reveal_strlit("");
            assert(name@ =~= Seq::<char>::empty());
        }
        let ghost first = list@;
        config.windows.insert(name, list);
        assert(config@.windows =~= Map::empty().insert(
            Seq::<char>::empty(),
            seq![before.default_conf()],
        )) by {
            assert(instance_views(first) =~= seq![before.default_conf()]);
        }
        config
    } else {
        assert(config@.windows != Map::<Seq<char>, Seq<PowerConfigView>>::empty()) by {
            let name = config.windows.names()[0];
            assert(config.windows.names().contains(name));
            assert(config@.windows.contains_key(name));
        }
        config
    }
}

impl PowerModule {
    /// The module as it is loaded: the compiled-in defaults in force, and no
    /// activity registered.
    pub fn new(name: &str) -> (module: PowerModule)
        ensures
            module.name@ == name@,
            module.config@ == in_force(PowerConfigMain::default_view()),
            module.registry.ids() == Seq::<ActivityIdentifier>::empty(),
    {
        PowerModule {
            name: name.to_owned(),
            config: with_fallback_window(PowerConfigMain::default()),
            registry: ActivityRegistry::new(),
        }
    }

    /// The name of the module.
    pub fn name(&self) -> (name: &str)
        ensures
            name@ == self.name@,
    {
        self.name.as_str()
    }

    /// Takes over a configuration that was read, or keeps the one in force
    /// where reading failed.
    pub fn update_config(&mut self, parsed: Result<DePowerConfigMain, String>) -> (result: Result<
        (),
        ConfigError,
    >)
        ensures
            final(self).name == old(self).name,
            final(self).registry == old(self).registry,
            match parsed {
                Ok(overlay) => result is Ok && final(self).config@ == in_force(
                    overlay@.into_main_config(),
                ),
                Err(message) => result == Err::<(), ConfigError>(ConfigError::Parse(message))
                    && final(self).config == old(self).config,
            },
    {
        match parsed {
            Ok(overlay) => {
                self.config = with_fallback_window(overlay.into_main_config());
                Ok(())
            },
            Err(message) => Err(ConfigError::Parse(message)),
        }
    }

    /// The configuration that the module offers as its default: the
    /// compiled-in defaults, without any window.
    pub fn default_config(&self) -> (config: PowerConfigMain)
        ensures
            config@ == PowerConfigMain::default_view(),
    {
        PowerConfigMain::default()
    }

    /// Brings the activities in line with the configuration.
    ///
    /// The activities that the configuration no longer wants are
    /// unregistered. One activity is planned for each instance that is
    /// missing, and every activity that stays or is planned is set up with
    /// its own configuration.
    pub fn producer(&mut self) -> (plan: ProducerPlan)
        ensures
            final(self).name == old(self).name,
            final(self).config == old(self).config,
            plan.to_remove@ == superseded(
                old(self).registry.ids(),
                old(self).config.windows.demand(),
            ),
            final(self).registry.ids() == retained(
                old(self).registry.ids(),
                old(self).config.windows.demand(),
            ),
            slots(plan.to_create@) == additions(
                slots(old(self).registry.ids()),
                old(self).config.windows.demand(),
            ),
            forall|k: int|
                0 <= k < plan.to_create@.len() ==> (#[trigger] plan.to_create@[k])@.module
                    == old(self).name@ && plan.to_create@[k]@.activity == "power-activity"@,
            plan.watched@.len() == final(self).registry.ids().len() + plan.to_create@.len(),
            forall|k: int|
                0 <= k < final(self).registry.ids().len() ==> (#[trigger] plan.watched@[k]).id
                    == final(self).registry.ids()[k],
            forall|k: int|
                0 <= k < plan.to_create@.len() ==> (#[trigger] plan.watched@[final(self).registry.ids().len()
                    + k]).id == plan.to_create@[k],
            forall|k: int|
                0 <= k < plan.watched@.len() ==> set_up(
                    #[trigger] plan.watched@[k],
                    old(self).config@,
                ),
    {
        let current = self.registry.list_activities();
        let desired = self.config.windows.counts();
        let (gone, to_add) = activities_to_update(&current, &desired);
        let ghost demand = self.config.windows.demand();
        proof {
            lemma_surviving_retained(current@, gone@, demand);
        }
        self.registry.remove_all(&gone);
        let next = apply_update(&current, &gone, &to_add, self.name.as_str(), "power-activity");
        let ghost kept = retained(current@, demand);

        let mut to_remove: Vec<ActivityIdentifier> = Vec::new();
        let mut i: usize = 0;
        while i < gone.len()
            invariant
                i <= gone.len(),
                gone@.map_values(|a: &ActivityIdentifier| *a) == superseded(current@, demand),
                to_remove@ == superseded(current@, demand).take(i as int),
            decreases gone.len() - i,
        {
            let act: &ActivityIdentifier = gone[i];
            assert(gone@.map_values(|a: &ActivityIdentifier| *a)[i as int] == *act);
            to_remove.push(act.clone());
            assert(superseded(current@, demand).take(i + 1) =~= superseded(
                current@,
                demand,
            ).take(i as int).push(*act));
            i += 1;
        }
        assert(superseded(current@, demand).take(gone.len() as int) =~= superseded(
            current@,
            demand,
        ));

        let kept_len = next.len() - to_add.len();
        let mut to_create: Vec<ActivityIdentifier> = Vec::new();
        let mut k: usize = kept_len;
        while k < next.len()
            invariant
                kept_len <= k <= next.len(),
                to_create@ == next@.subrange(kept_len as int, k as int),
            decreases next.len() - k,
        {
            to_create.push(next[k].clone());
            assert(next@.subrange(kept_len as int, k + 1) =~= next@.subrange(
                kept_len as int,
                k as int,
            ).push(next@[k as int]));
            k += 1;
        }
        proof {
            assert(slots(to_create@) =~= slots(next@).subrange(
                kept_len as int,
                next.len() as int,
            ));
            assert(slots(next@).subrange(kept_len as int, next.len() as int) =~= additions(
                slots(current@),
                demand,
            ));
            assert forall|n: int| 0 <= n < to_create@.len() implies (#[trigger] to_create@[n])@.module
                == self.name@ && to_create@[n]@.activity == "power-activity"@ by {
                assert(to_create@[n] == next@[kept_len + n]);
            }
        }

        let mut watched: Vec<WatchedActivity> = Vec::new();
        let mut n: usize = 0;
        while n < next.len()
            invariant
                n <= next.len(),
                watched@.len() == n,
                forall|m: int| 0 <= m < n ==> (#[trigger] watched@[m]).id == next@[m],
                forall|m: int| 0 <= m < n ==> set_up(#[trigger] watched@[m], self.config@),
            decreases next.len() - n,
        {
            let id = next[n].clone();
            let config = self.config.get_for_window(id.window_name(), id.instance());
            let keep_registered = !config.hide_if_missing;
            let device_name = config.battery.clone();
            watched.push(WatchedActivity { id, config, keep_registered, device_name });
            n += 1;
        }
        proof {
            assert forall|m: int| 0 <= m < kept.len() implies (#[trigger] watched@[m]).id
                == kept[m] by {
                assert(watched@[m].id == next@[m]);
            }
            assert forall|m: int| 0 <= m < to_create@.len() implies (#[trigger] watched@[kept.len()
                + m]).id == to_create@[m] by {
                assert(to_create@[m] == next@[kept_len + m]);
            }
        }
        ProducerPlan { to_remove, to_create, watched }
    }
}

/// What the activity shows of a device.
#[derive(Debug, Clone, Copy, PartialEq, Eq, Structural)]
pub struct ActivityUpdate {
    /// Whether the device is charging.
    pub charging: bool,
    pub state: State,
    /// Seconds until the battery is empty; zero where the reading is bad.
    pub time_to_empty: u64,
    /// Seconds until the battery is full; zero where the reading is bad.
    pub time_to_full: u64,
}

/// What a reading of the device named `name` changes on an activity that
/// follows `battery`: nothing unless the names agree.
pub open spec fn update_of(device: Device, name: Seq<char>, battery: Seq<char>) -> Option<
    ActivityUpdate,
> {
    if name == battery {
        Some(
            ActivityUpdate {
                charging: State::of_code(device.state) == State::Charging,
                state: State::of_code(device.state),
                time_to_empty: if device.time_to_empty < 0 {
                    0
                } else {
                    device.time_to_empty as u64
                },
                time_to_full: if device.time_to_full < 0 {
                    0
                } else {
                    device.time_to_full as u64
                },
            },
        )
    } else {
        None
    }
}

/// What a reading of the device named `name` changes on an activity with
/// the configuration `config`.
pub fn activity_update(device: &Device, name: &str, config: &PowerConfig) -> (update: Option<
    ActivityUpdate,
>)
    ensures
        update == update_of(*device, name@, config.battery@),
{
    if !text_eq(name, config.battery.as_str()) {
        return None;
    }
    let state = device.state();
    let time_to_empty = match device.time_to_empty() {
        Ok(seconds) => seconds,
        Err(_) => 0,
    };
    let time_to_full = match device.time_to_full() {
        Ok(seconds) => seconds,
        Err(_) => 0,
    };
    Some(
        ActivityUpdate {
            charging: state == State::Charging,
            state,
            time_to_empty,
            time_to_full,
        },
    )
}

/// A request for a device's history.
#[derive(Debug, Clone, Copy, PartialEq, Eq, Structural)]
pub struct HistoryRequest {
    pub kind: HistoryType,
    /// How far back to go, in seconds.
    pub timespan: u32,
    /// About how many points to return.
    pub resolution: u32,
}

/// The request for the charge history that `config` asks for: as far back
/// as the graph reaches, with one point a minute.
pub fn charge_history_request(config: &PowerConfig) -> (request: HistoryRequest)
    ensures
        request == (HistoryRequest {
            kind: HistoryType::Charge,
            timespan: config.max_duration_secs,
            resolution: config.max_duration_secs / 60,
        }),
{
    HistoryRequest {
        kind: HistoryType::Charge,
        timespan: config.max_duration_secs,
        resolution: config.max_duration_secs / 60,
    }
}

/// The request for the rate history: the last hundred seconds in ten points.
pub fn rate_history_request() -> (request: HistoryRequest)
    ensures
        request == (HistoryRequest { kind: HistoryType::Rate, timespan: 100, resolution: 10 }),
{
    HistoryRequest { kind: HistoryType::Rate, timespan: 100, resolution: 10 }
}

} // verus!
