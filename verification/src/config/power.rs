//! Configuration of the power activities.

use crate::config::text_view;
use crate::windows::WindowMap;
use vstd::prelude::*;
use vstd::std_specs::cmp::PartialEqSpecImpl;

verus! {

/// The configuration of one power activity, every field resolved.
#[derive(Debug, Eq)]
pub struct PowerConfig {
    /// The battery to follow, by its native path or its object path. Empty
    /// for the display device, which stands for all batteries together.
    pub battery: String,
    /// Tooltip of the activity; empty for none.
    pub name: String,
    /// Whether the activity leaves the screen while its battery is missing.
    pub hide_if_missing: bool,
    /// Markup of the percentage label; the first `{}` takes the percentage.
    pub percentage_pango_markup: String,
    /// Fill colour while charging.
    pub charging_color: String,
    /// Fill colour while discharging.
    pub normal_color: String,
    /// Fill colour when the charge is low.
    pub low_color: String,
    /// Colour of the empty part of the battery.
    pub background_color: String,
    /// How far back the charge history reaches, in seconds.
    pub max_duration_secs: u32,
    /// Whether the history graph draws its grid lines.
    pub draw_bars: bool,
}

/// What a [`PowerConfig`] holds, as mathematical values.
pub ghost struct PowerConfigView {
    pub battery: Seq<char>,
    pub name: Seq<char>,
    pub hide_if_missing: bool,
    pub percentage_pango_markup: Seq<char>,
    pub charging_color: Seq<char>,
    pub normal_color: Seq<char>,
    pub low_color: Seq<char>,
    pub background_color: Seq<char>,
    pub max_duration_secs: u32,
    pub draw_bars: bool,
}

impl View for PowerConfig {
    type V = PowerConfigView;

    open spec fn view(&self) -> PowerConfigView {
        PowerConfigView {
            battery: self.battery@,
            name: self.name@,
            hide_if_missing: self.hide_if_missing,
            percentage_pango_markup: self.percentage_pango_markup@,
            charging_color: self.charging_color@,
            normal_color: self.normal_color@,
            low_color: self.low_color@,
            background_color: self.background_color@,
            max_duration_secs: self.max_duration_secs,
            draw_bars: self.draw_bars,
        }
    }
}

impl PowerConfig {
    /// The compiled-in defaults.
    pub open spec fn default_view() -> PowerConfigView {
        PowerConfigView {
            battery: ""@,
            name: ""@,
            hide_if_missing: true,
            percentage_pango_markup:
                "<span font_desc=\"Monospace Bold 11\" foreground=\"#FFFFFF00\">{}</span>"@,
            charging_color: "#2EE81AFF"@,
            normal_color: "white"@,
            low_color: "#FDC400FF"@,
            background_color: "#E6E6E699"@,
            max_duration_secs: 36000,
            draw_bars: true,
        }
    }
}

impl Default for PowerConfig {
    fn default() -> (conf: PowerConfig)
        ensures
            conf@ == PowerConfig::default_view(),
    {
        PowerConfig {
            battery: "".to_owned(),
            name: "".to_owned(),
            hide_if_missing: true,
            percentage_pango_markup:
                "<span font_desc=\"Monospace Bold 11\" foreground=\"#FFFFFF00\">{}</span>".to_owned(),
            charging_color: "#2EE81AFF".to_owned(),
            normal_color: "white".to_owned(),
            low_color: "#FDC400FF".to_owned(),
            background_color: "#E6E6E699".to_owned(),
            max_duration_secs: 36000,
            draw_bars: true,
        }
    }
}

impl Clone for PowerConfig {
    fn clone(&self) -> (copy: PowerConfig)
        ensures
            copy == *self,
    {
        PowerConfig {
            battery: self.battery.clone(),
            name: self.name.clone(),
            hide_if_missing: self.hide_if_missing,
            percentage_pango_markup: self.percentage_pango_markup.clone(),
            charging_color: self.charging_color.clone(),
            normal_color: self.normal_color.clone(),
            low_color: self.low_color.clone(),
            background_color: self.background_color.clone(),
            max_duration_secs: self.max_duration_secs,
            draw_bars: self.draw_bars,
        }
    }
}

impl PartialEqSpecImpl for PowerConfig {
    open spec fn obeys_eq_spec() -> bool {
        true
    }

    open spec fn eq_spec(&self, other: &PowerConfig) -> bool {
        self@ == other@
    }
}

impl PartialEq for PowerConfig {
    fn eq(&self, other: &PowerConfig) -> (same: bool) {
        self.battery == other.battery
            && self.name == other.name
            && self.hide_if_missing == other.hide_if_missing
            && self.percentage_pango_markup == other.percentage_pango_markup
            && self.charging_color == other.charging_color
            && self.normal_color == other.normal_color
            && self.low_color == other.low_color
            && self.background_color == other.background_color
            && self.max_duration_secs == other.max_duration_secs
            && self.draw_bars == other.draw_bars
    }
}

/// A partial [`PowerConfig`]: each field is set or left to a default.
#[derive(Debug, Clone)]
pub struct DePowerConfig {
    pub battery: Option<String>,
    pub name: Option<String>,
    pub hide_if_missing: Option<bool>,
    pub percentage_pango_markup: Option<String>,
    pub charging_color: Option<String>,
    pub normal_color: Option<String>,
    pub low_color: Option<String>,
    pub background_color: Option<String>,
    pub max_duration_secs: Option<u32>,
    pub draw_bars: Option<bool>,
}

/// What a [`DePowerConfig`] holds, as mathematical values.
pub ghost struct DePowerConfigView {
    pub battery: Option<Seq<char>>,
    pub name: Option<Seq<char>>,
    pub hide_if_missing: Option<bool>,
    pub percentage_pango_markup: Option<Seq<char>>,
    pub charging_color: Option<Seq<char>>,
    pub normal_color: Option<Seq<char>>,
    pub low_color: Option<Seq<char>>,
    pub background_color: Option<Seq<char>>,
    pub max_duration_secs: Option<u32>,
    pub draw_bars: Option<bool>,
}

impl View for DePowerConfig {
    type V = DePowerConfigView;

    open spec fn view(&self) -> DePowerConfigView {
        DePowerConfigView {
            battery: text_view(self.battery),
            name: text_view(self.name),
            hide_if_missing: self.hide_if_missing,
            percentage_pango_markup: text_view(self.percentage_pango_markup),
            charging_color: text_view(self.charging_color),
            normal_color: text_view(self.normal_color),
            low_color: text_view(self.low_color),
            background_color: text_view(self.background_color),
            max_duration_secs: self.max_duration_secs,
            draw_bars: self.draw_bars,
        }
    }
}

impl Default for DePowerConfig {
    fn default() -> (overlay: DePowerConfig)
        ensures
            overlay@ == DePowerConfig::empty_view(),
    {
        DePowerConfig {
            battery: None,
            name: None,
            hide_if_missing: None,
            percentage_pango_markup: None,
            charging_color: None,
            normal_color: None,
            low_color: None,
            background_color: None,
            max_duration_secs: None,
            draw_bars: None,
        }
    }
}

impl DePowerConfig {
    /// The overlay that sets no field.
    pub open spec fn empty_view() -> DePowerConfigView {
        DePowerConfigView {
            battery: None,
            name: None,
            hide_if_missing: None,
            percentage_pango_markup: None,
            charging_color: None,
            normal_color: None,
            low_color: None,
            background_color: None,
            max_duration_secs: None,
            draw_bars: None,
        }
    }

    /// The configuration that an overlay resolves to against a default:
    /// field by field, the overlay's value where it has one, else the
    /// default's.
    pub open spec fn resolved(
        overlay: DePowerConfigView,
        default: PowerConfigView,
    ) -> PowerConfigView {
        PowerConfigView {
            battery: match overlay.battery {
                Some(value) => value,
                None => default.battery,
            },
            name: match overlay.name {
                Some(value) => value,
                None => default.name,
            },
            hide_if_missing: match overlay.hide_if_missing {
                Some(value) => value,
                None => default.hide_if_missing,
            },
            percentage_pango_markup: match overlay.percentage_pango_markup {
                Some(value) => value,
                None => default.percentage_pango_markup,
            },
            charging_color: match overlay.charging_color {
                Some(value) => value,
                None => default.charging_color,
            },
            normal_color: match overlay.normal_color {
                Some(value) => value,
                None => default.normal_color,
            },
            low_color: match overlay.low_color {
                Some(value) => value,
                None => default.low_color,
            },
            background_color: match overlay.background_color {
                Some(value) => value,
                None => default.background_color,
            },
            max_duration_secs: match overlay.max_duration_secs {
                Some(value) => value,
                None => default.max_duration_secs,
            },
            draw_bars: match overlay.draw_bars {
                Some(value) => value,
                None => default.draw_bars,
            },
        }
    }

    /// Resolves the overlay against `default`, leaving the overlay in place.
    pub fn resolve(&self, default: &PowerConfig) -> (conf: PowerConfig)
        ensures
            conf@ == Self::resolved(self@, default@),
    {
        PowerConfig {
            battery: match &self.battery {
                Some(value) => value.clone(),
                None => default.battery.clone(),
            },
            name: match &self.name {
                Some(value) => value.clone(),
                None => default.name.clone(),
            },
            hide_if_missing: match self.hide_if_missing {
                Some(value) => value,
                None => default.hide_if_missing,
            },
            percentage_pango_markup: match &self.percentage_pango_markup {
                Some(value) => value.clone(),
                None => default.percentage_pango_markup.clone(),
            },
            charging_color: match &self.charging_color {
                Some(value) => value.clone(),
                None => default.charging_color.clone(),
            },
            normal_color: match &self.normal_color {
                Some(value) => value.clone(),
                None => default.normal_color.clone(),
            },
            low_color: match &self.low_color {
                Some(value) => value.clone(),
                None => default.low_color.clone(),
            },
            background_color: match &self.background_color {
                Some(value) => value.clone(),
                None => default.background_color.clone(),
            },
            max_duration_secs: match self.max_duration_secs {
                Some(value) => value,
                None => default.max_duration_secs,
            },
            draw_bars: match self.draw_bars {
                Some(value) => value,
                None => default.draw_bars,
            },
        }
    }

    /// Resolves the overlay against `default`.
    pub fn into_config(self, default: &PowerConfig) -> (conf: PowerConfig)
        ensures
            conf@ == Self::resolved(self@, default@),
    {
        self.resolve(default)
    }

    /// Resolution goes field by field: a field that the overlay sets takes
    /// the overlay's value whatever the default holds, and a field that it
    /// leaves open takes the default's value.
    pub proof fn lemma_field_by_field(overlay: DePowerConfigView, default: PowerConfigView)
        ensures
            ({
                let resolved = Self::resolved(overlay, default);
                &&& overlay.battery matches Some(value) ==> resolved.battery == value
                &&& overlay.battery is None ==> resolved.battery == default.battery
                &&& overlay.name matches Some(value) ==> resolved.name == value
                &&& overlay.name is None ==> resolved.name == default.name
                &&& overlay.hide_if_missing matches Some(value) ==> resolved.hide_if_missing
                    == value
                &&& overlay.hide_if_missing is None ==> resolved.hide_if_missing
                    == default.hide_if_missing
                &&& overlay.percentage_pango_markup matches Some(value) ==> resolved.percentage_pango_markup
                    == value
                &&& overlay.percentage_pango_markup is None ==> resolved.percentage_pango_markup
                    == default.percentage_pango_markup
                &&& overlay.charging_color matches Some(value) ==> resolved.charging_color == value
                &&& overlay.charging_color is None ==> resolved.charging_color
                    == default.charging_color
                &&& overlay.normal_color matches Some(value) ==> resolved.normal_color == value
                &&& overlay.normal_color is None ==> resolved.normal_color == default.normal_color
                &&& overlay.low_color matches Some(value) ==> resolved.low_color == value
                &&& overlay.low_color is None ==> resolved.low_color == default.low_color
                &&& overlay.background_color matches Some(value) ==> resolved.background_color
                    == value
                &&& overlay.background_color is None ==> resolved.background_color
                    == default.background_color
                &&& overlay.max_duration_secs matches Some(value) ==> resolved.max_duration_secs
                    == value
                &&& overlay.max_duration_secs is None ==> resolved.max_duration_secs
                    == default.max_duration_secs
                &&& overlay.draw_bars matches Some(value) ==> resolved.draw_bars == value
                &&& overlay.draw_bars is None ==> resolved.draw_bars == default.draw_bars
            }),
    {
    }
}

/// The configuration of the power module: the fields that all instances
/// share, and the instances that each window lists.
#[derive(Debug, Clone)]
pub struct PowerConfigMain {
    pub battery: String,
    pub name: String,
    pub hide_if_missing: bool,
    pub percentage_pango_markup: String,
    pub charging_color: String,
    pub normal_color: String,
    pub low_color: String,
    pub background_color: String,
    pub max_duration_secs: u32,
    pub draw_bars: bool,
    /// The instances of each window, in instance order.
    pub windows: WindowMap<PowerConfig>,
}

/// What a [`PowerConfigMain`] holds, as mathematical values.
pub ghost struct PowerConfigMainView {
    pub battery: Seq<char>,
    pub name: Seq<char>,
    pub hide_if_missing: bool,
    pub percentage_pango_markup: Seq<char>,
    pub charging_color: Seq<char>,
    pub normal_color: Seq<char>,
    pub low_color: Seq<char>,
    pub background_color: Seq<char>,
    pub max_duration_secs: u32,
    pub draw_bars: bool,
    pub windows: Map<Seq<char>, Seq<PowerConfigView>>,
}

/// The views of a window's instances.
pub open spec fn instance_views(list: Seq<PowerConfig>) -> Seq<PowerConfigView> {
    list.map_values(|conf: PowerConfig| conf@)
}

/// The views of a window's overlays.
pub open spec fn overlay_views(list: Seq<DePowerConfig>) -> Seq<DePowerConfigView> {
    list.map_values(|overlay: DePowerConfig| overlay@)
}

/// The views of a window's overlays, each resolved against `default`.
pub open spec fn resolved_views(list: Seq<DePowerConfig>, default: PowerConfigView) -> Seq<
    PowerConfigView,
> {
    overlay_views(list).map_values(|o: DePowerConfigView| DePowerConfig::resolved(o, default))
}

impl View for PowerConfigMain {
    type V = PowerConfigMainView;

    open spec fn view(&self) -> PowerConfigMainView {
        PowerConfigMainView {
            battery: self.battery@,
            name: self.name@,
            hide_if_missing: self.hide_if_missing,
            percentage_pango_markup: self.percentage_pango_markup@,
            charging_color: self.charging_color@,
            normal_color: self.normal_color@,
            low_color: self.low_color@,
            background_color: self.background_color@,
            max_duration_secs: self.max_duration_secs,
            draw_bars: self.draw_bars,
            windows: self.windows@.map_values(|list: Seq<PowerConfig>| instance_views(list)),
        }
    }
}

impl PowerConfigMainView {
    /// The configuration of an instance that no window lists: the shared
    /// fields as they are configured.
    pub open spec fn default_conf(self) -> PowerConfigView {
        PowerConfigView {
            battery: self.battery,
            name: self.name,
            hide_if_missing: self.hide_if_missing,
            percentage_pango_markup: self.percentage_pango_markup,
            charging_color: self.charging_color,
            normal_color: self.normal_color,
            low_color: self.low_color,
            background_color: self.background_color,
            max_duration_secs: self.max_duration_secs,
            draw_bars: self.draw_bars,
        }
    }

    /// The configuration of instance `idx` of `window`: the listed one where
    /// the window has that many instances, else [`Self::default_conf`].
    pub open spec fn get_for_window(self, window: Seq<char>, idx: int) -> PowerConfigView {
        if self.windows.contains_key(window) && 0 <= idx < self.windows[window].len() {
            self.windows[window][idx]
        } else {
            self.default_conf()
        }
    }
}

impl PowerConfigMain {
    /// The configuration of an instance that no window lists.
    pub fn default_conf(&self) -> (conf: PowerConfig)
        ensures
            conf@ == self@.default_conf(),
    {
        PowerConfig {
            battery: self.battery.clone(),
            name: self.name.clone(),
            hide_if_missing: self.hide_if_missing,
            percentage_pango_markup: self.percentage_pango_markup.clone(),
            charging_color: self.charging_color.clone(),
            normal_color: self.normal_color.clone(),
            low_color: self.low_color.clone(),
            background_color: self.background_color.clone(),
            max_duration_secs: self.max_duration_secs,
            draw_bars: self.draw_bars,
        }
    }

    /// The configuration of instance `idx` of `window`. An instance past the
    /// end of its window's list, or on a window that is not configured, gets
    /// the default configuration.
    pub fn get_for_window(&self, window: &str, idx: usize) -> (conf: PowerConfig)
        ensures
            conf@ == self@.get_for_window(window@, idx as int),
    {
        if let Some(list) = self.windows.get(window) {
            if idx < list.len() {
                return list[idx].clone();
            }
        }
        self.default_conf()
    }
}

impl PowerConfigMain {
    /// The compiled-in defaults without any window.
    pub open spec fn default_view() -> PowerConfigMainView {
        PowerConfigMainView {
            battery: PowerConfig::default_view().battery,
            name: PowerConfig::default_view().name,
            hide_if_missing: PowerConfig::default_view().hide_if_missing,
            percentage_pango_markup: PowerConfig::default_view().percentage_pango_markup,
            charging_color: PowerConfig::default_view().charging_color,
            normal_color: PowerConfig::default_view().normal_color,
            low_color: PowerConfig::default_view().low_color,
            background_color: PowerConfig::default_view().background_color,
            max_duration_secs: PowerConfig::default_view().max_duration_secs,
            draw_bars: PowerConfig::default_view().draw_bars,
            windows: Map::empty(),
        }
    }
}

impl Default for PowerConfigMain {
    fn default() -> (main: PowerConfigMain)
        ensures
            main@ == PowerConfigMain::default_view(),
    {
        let child_default = PowerConfig::default();
        let main = PowerConfigMain {
            battery: child_default.battery,
            name: child_default.name,
            hide_if_missing: child_default.hide_if_missing,
            percentage_pango_markup: child_default.percentage_pango_markup,
            charging_color: child_default.charging_color,
            normal_color: child_default.normal_color,
            low_color: child_default.low_color,
            background_color: child_default.background_color,
            max_duration_secs: child_default.max_duration_secs,
            draw_bars: child_default.draw_bars,
            windows: WindowMap::new(),
        };
        assert(main@.windows =~= Map::<Seq<char>, Seq<PowerConfigView>>::empty());
        main
    }
}

/// The configuration of the power module as it is written down: the shared
/// fields, and for each window the overlays of its instances.
#[derive(Debug, Clone)]
pub struct DePowerConfigMain {
    pub battery: String,
    pub name: String,
    pub hide_if_missing: bool,
    pub percentage_pango_markup: String,
    pub charging_color: String,
    pub normal_color: String,
    pub low_color: String,
    pub background_color: String,
    pub max_duration_secs: u32,
    pub draw_bars: bool,
    /// The overlays of each window, in instance order.
    pub windows: WindowMap<DePowerConfig>,
}

/// What a [`DePowerConfigMain`] holds, as mathematical values.
pub ghost struct DePowerConfigMainView {
    pub battery: Seq<char>,
    pub name: Seq<char>,
    pub hide_if_missing: bool,
    pub percentage_pango_markup: Seq<char>,
    pub charging_color: Seq<char>,
    pub normal_color: Seq<char>,
    pub low_color: Seq<char>,
    pub background_color: Seq<char>,
    pub max_duration_secs: u32,
    pub draw_bars: bool,
    pub windows: Map<Seq<char>, Seq<DePowerConfigView>>,
}

impl View for DePowerConfigMain {
    type V = DePowerConfigMainView;

    open spec fn view(&self) -> DePowerConfigMainView {
        DePowerConfigMainView {
            battery: self.battery@,
            name: self.name@,
            hide_if_missing: self.hide_if_missing,
            percentage_pango_markup: self.percentage_pango_markup@,
            charging_color: self.charging_color@,
            normal_color: self.normal_color@,
            low_color: self.low_color@,
            background_color: self.background_color@,
            max_duration_secs: self.max_duration_secs,
            draw_bars: self.draw_bars,
            windows: self.windows@.map_values(|list: Seq<DePowerConfig>| overlay_views(list)),
        }
    }
}

impl DePowerConfigMain {
    /// The overlay that configures nothing: the compiled-in defaults and no
    /// window.
    pub open spec fn default_view() -> DePowerConfigMainView {
        DePowerConfigMainView {
            battery: PowerConfig::default_view().battery,
            name: PowerConfig::default_view().name,
            hide_if_missing: PowerConfig::default_view().hide_if_missing,
            percentage_pango_markup: PowerConfig::default_view().percentage_pango_markup,
            charging_color: PowerConfig::default_view().charging_color,
            normal_color: PowerConfig::default_view().normal_color,
            low_color: PowerConfig::default_view().low_color,
            background_color: PowerConfig::default_view().background_color,
            max_duration_secs: PowerConfig::default_view().max_duration_secs,
            draw_bars: PowerConfig::default_view().draw_bars,
            windows: Map::empty(),
        }
    }
}

impl Default for DePowerConfigMain {
    fn default() -> (overlay: DePowerConfigMain)
        ensures
            overlay@ == DePowerConfigMain::default_view(),
    {
        let child_default = PowerConfig::default();
        let overlay = DePowerConfigMain {
            battery: child_default.battery,
            name: child_default.name,
            hide_if_missing: child_default.hide_if_missing,
            percentage_pango_markup: child_default.percentage_pango_markup,
            charging_color: child_default.charging_color,
            normal_color: child_default.normal_color,
            low_color: child_default.low_color,
            background_color: child_default.background_color,
            max_duration_secs: child_default.max_duration_secs,
            draw_bars: child_default.draw_bars,
            windows: WindowMap::new(),
        };
        assert(overlay@.windows =~= Map::<Seq<char>, Seq<DePowerConfigView>>::empty());
        overlay
    }
}

impl DePowerConfigMainView {
    /// The shared fields of the overlay with no window yet.
    pub open spec fn shared(self) -> PowerConfigMainView {
        PowerConfigMainView {
            battery: self.battery,
            name: self.name,
            hide_if_missing: self.hide_if_missing,
            percentage_pango_markup: self.percentage_pango_markup,
            charging_color: self.charging_color,
            normal_color: self.normal_color,
            low_color: self.low_color,
            background_color: self.background_color,
            max_duration_secs: self.max_duration_secs,
            draw_bars: self.draw_bars,
            windows: Map::empty(),
        }
    }

    /// The configuration that the overlay resolves to: the shared fields as
    /// they stand, and for each window of the overlay its entries, each
    /// resolved against the default configuration of the shared fields.
    pub open spec fn into_main_config(self) -> PowerConfigMainView {
        PowerConfigMainView {
            battery: self.battery,
            name: self.name,
            hide_if_missing: self.hide_if_missing,
            percentage_pango_markup: self.percentage_pango_markup,
            charging_color: self.charging_color,
            normal_color: self.normal_color,
            low_color: self.low_color,
            background_color: self.background_color,
            max_duration_secs: self.max_duration_secs,
            draw_bars: self.draw_bars,
            windows: self.windows.map_values(
                |list: Seq<DePowerConfigView>|
                    list.map_values(
                        |o: DePowerConfigView| DePowerConfig::resolved(o, self.shared().default_conf()),
                    ),
            ),
        }
    }
}

/// Resolves each overlay of one window against `default`.
fn resolve_instances(overlays: &Vec<DePowerConfig>, default: &PowerConfig) -> (list: Vec<
    PowerConfig,
>)
    ensures
        list@.len() == overlays@.len(),
        forall|k: int|
            0 <= k < list@.len() ==> (#[trigger] list@[k])@ == DePowerConfig::resolved(
                overlays@[k]@,
                default@,
            ),
{
    let mut list: Vec<PowerConfig> = Vec::new();
    let mut k: usize = 0;
    while k < overlays.len()
        invariant
            k <= overlays.len(),
            list@.len() == k,
            forall|m: int|
                0 <= m < k ==> (#[trigger] list@[m])@ == DePowerConfig::resolved(
                    overlays@[m]@,
                    default@,
                ),
        decreases overlays.len() - k,
    {
        list.push(overlays[k].resolve(default));
        k += 1;
    }
    list
}

impl DePowerConfigMain {
    /// Resolves the overlay into a full configuration. A window that the
    /// overlay does not name gets no instance; the windows keep their order.
    pub fn into_main_config(self) -> (main: PowerConfigMain)
        ensures
            main@ == self@.into_main_config(),
            main.windows.names() == self.windows.names(),
    {
        let ghost overlay = self@;
        let DePowerConfigMain {
            battery,
            name,
            hide_if_missing,
            percentage_pango_markup,
            charging_color,
            normal_color,
            low_color,
            background_color,
            max_duration_secs,
            draw_bars,
            windows: overlays,
        } = self;
        let mut main_conf = PowerConfigMain {
            battery,
            name,
            hide_if_missing,
            percentage_pango_markup,
            charging_color,
            normal_color,
            low_color,
            background_color,
            max_duration_secs,
            draw_bars,
            windows: WindowMap::new(),
        };
        assert(main_conf@.windows =~= Map::<Seq<char>, Seq<PowerConfigView>>::empty());
        assert(main_conf@ == overlay.shared());
        let child_default = main_conf.default_conf();
        let mut windows: WindowMap<PowerConfig> = WindowMap::new();
        let count = overlays.len();
        let mut i: usize = 0;
        while i < count
            invariant
                i <= count,
                count == overlays.names().len(),
                overlays.well_formed(),
                windows.well_formed(),
                windows.names() == overlays.names().take(i as int),
                forall|m: int|
                    0 <= m < i ==> instance_views(#[trigger] windows.lists()[m]) == resolved_views(
                        overlays.lists()[m],
                        child_default@,
                    ),
            decreases count - i,
        {
            let (name, list) = overlays.entry(i);
            let resolved = resolve_instances(list, &child_default);
            let ghost before = windows;
            assert(!before.names().contains(name@)) by {
                if before.names().contains(name@) {
                    let at = before.names().index_of(name@);
                    assert(overlays.names()[at] == overlays.names()[i as int]);
                }
            }
            windows.insert(name.to_owned(), resolved);
            assert(windows.names() =~= overlays.names().take(i + 1));
            assert(instance_views(resolved@) =~= resolved_views(list@, child_default@));
            assert forall|m: int| 0 <= m < i + 1 implies instance_views(
                #[trigger] windows.lists()[m],
            ) == resolved_views(overlays.lists()[m], child_default@) by {
                if m < i {
                    assert(windows.lists()[m] == before.lists()[m]);
                }
            }
            i += 1;
        }
        assert(windows.names() =~= overlays.names());
        main_conf.windows = windows;
        proof {
            let want = overlay.into_main_config().windows;
            let have = main_conf@.windows;
            assert forall|n: Seq<char>| have.contains_key(n) implies #[trigger] have[n]
                == want[n] by {
                let at = overlays.names().index_of(n);
                assert(main_conf.windows.names().index_of(n) == at);
            }
            assert(have =~= want);
        }
        main_conf
    }
}

/// The empty overlay resolves to the default it is resolved against.
pub proof fn lemma_empty_overlay_is_default(default: PowerConfigView)
    ensures
        DePowerConfig::resolved(DePowerConfig::empty_view(), default) == default,
{
}

/// The overlay that configures nothing gives every instance of every
/// window, whether the window exists or not, the compiled-in defaults.
pub proof fn lemma_unconfigured_is_default(window: Seq<char>, idx: int)
    ensures
        DePowerConfigMain::default_view().into_main_config().get_for_window(window, idx)
            == PowerConfig::default_view(),
{
    let main = DePowerConfigMain::default_view().into_main_config();
    assert(!main.windows.contains_key(window));
}

/// An instance that an overlay lists gets the overlay entry's own value for
/// each field that the entry sets, whatever the defaults hold, and the
/// default configuration's value for each field that it leaves unset.
pub proof fn lemma_listed_instance(overlay: DePowerConfigMainView, window: Seq<char>, idx: int)
    requires
        overlay.windows.contains_key(window),
        0 <= idx < overlay.windows[window].len(),
    ensures
        overlay.into_main_config().get_for_window(window, idx) == DePowerConfig::resolved(
            overlay.windows[window][idx],
            overlay.into_main_config().default_conf(),
        ),
{
}

/// An instance that an overlay does not list gets the default
/// configuration.
pub proof fn lemma_unlisted_instance(overlay: DePowerConfigMainView, window: Seq<char>, idx: int)
    requires
        !overlay.windows.contains_key(window) || !(0 <= idx < overlay.windows[window].len()),
    ensures
        overlay.into_main_config().get_for_window(window, idx)
            == overlay.into_main_config().default_conf(),
{
}

} // verus!
