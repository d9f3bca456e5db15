//! Configuration of the script activities: one with a field that every
//! instance sets for itself and a compound field.

use crate::config::text_view;
use crate::windows::WindowMap;
use vstd::prelude::*;
use vstd::std_specs::cmp::PartialEqSpecImpl;

verus! {

/// Where a window sits.
#[derive(Debug, Eq)]
pub struct WinPos {
    /// The layer of the window, counted from the bottom.
    pub layer: u64,
}

/// What a [`WinPos`] holds, as mathematical values.
pub ghost struct WinPosView {
    pub layer: u64,
}

impl View for WinPos {
    type V = WinPosView;

    open spec fn view(&self) -> WinPosView {
        WinPosView {
            layer: self.layer,
        }
    }
}

impl WinPos {
    /// The compiled-in defaults.
    pub open spec fn default_view() -> WinPosView {
        WinPosView {
            layer: 0,
        }
    }
}

impl Default for WinPos {
    fn default() -> (conf: WinPos)
        ensures
            conf@ == WinPos::default_view(),
    {
        WinPos {
            layer: 0,
        }
    }
}

impl Clone for WinPos {
    fn clone(&self) -> (copy: WinPos)
        ensures
            copy == *self,
    {
        WinPos {
            layer: self.layer,
        }
    }
}

impl PartialEqSpecImpl for WinPos {
    open spec fn obeys_eq_spec() -> bool {
        true
    }

    open spec fn eq_spec(&self, other: &WinPos) -> bool {
        self@ == other@
    }
}

impl PartialEq for WinPos {
    fn eq(&self, other: &WinPos) -> (same: bool) {
        self.layer == other.layer
    }
}

/// A partial [`WinPos`].
#[derive(Debug, Clone)]
pub struct DeWinPos {
    pub layer: Option<u64>,
}

/// What a [`DeWinPos`] holds, as mathematical values.
pub ghost struct DeWinPosView {
    pub layer: Option<u64>,
}

impl View for DeWinPos {
    type V = DeWinPosView;

    open spec fn view(&self) -> DeWinPosView {
        DeWinPosView {
            layer: self.layer,
        }
    }
}

impl Default for DeWinPos {
    fn default() -> (overlay: DeWinPos)
        ensures
            overlay@ == DeWinPos::empty_view(),
    {
        DeWinPos {
            layer: None,
        }
    }
}

impl DeWinPos {
    /// The overlay that sets no field.
    pub open spec fn empty_view() -> DeWinPosView {
        DeWinPosView {
            layer: None,
        }
    }

    /// The configuration that an overlay resolves to against a default:
    /// field by field, the overlay's value where it has one, else the
    /// default's.
    pub open spec fn resolved(
        overlay: DeWinPosView,
        default: WinPosView,
    ) -> WinPosView {
        WinPosView {
            layer: match overlay.layer {
                Some(value) => value,
                None => default.layer,
            },
        }
    }

    /// Resolves the overlay against `default`, leaving the overlay in place.
    pub fn resolve(&self, default: &WinPos) -> (conf: WinPos)
        ensures
            conf@ == Self::resolved(self@, default@),
    {
        WinPos {
            layer: match self.layer {
                Some(value) => value,
                None => default.layer,
            },
        }
    }

    /// Resolves the overlay against `default`.
    pub fn into_config(self, default: &WinPos) -> (conf: WinPos)
        ensures
            conf@ == Self::resolved(self@, default@),
    {
        self.resolve(default)
    }

    /// Resolution goes field by field: a field that the overlay sets takes
    /// the overlay's value whatever the default holds, and a field that it
    /// leaves open takes the default's value.
    pub proof fn lemma_field_by_field(overlay: DeWinPosView, default: WinPosView)
        ensures
            ({
                let resolved = Self::resolved(overlay, default);
                &&& overlay.layer matches Some(value) ==> resolved.layer == value
                &&& overlay.layer is None ==> resolved.layer == default.layer
            }),
    {
    }
}

/// The configuration of one script activity, every field resolved.
#[derive(Debug, Eq)]
pub struct ScriptConfig {
    /// Whether a label that does not fit scrolls.
    pub scrolling: bool,
    /// Speed of a scrolling label in pixels per second, as the bits of an
    /// IEEE 754 single-precision number. The default is 30.
    pub scrolling_speed: u32,
    /// Greatest width of the label in pixels.
    pub max_width: i32,
    /// Icon of the minimal view.
    pub minimal_image: String,
    /// Command whose output the label shows. Each instance has its own: the
    /// field is child-only.
    pub command: String,
    /// Where the window sits. A compound field with an overlay of its own.
    pub win_pos: WinPos,
}

/// What a [`ScriptConfig`] holds, as mathematical values.
pub ghost struct ScriptConfigView {
    pub scrolling: bool,
    pub scrolling_speed: u32,
    pub max_width: i32,
    pub minimal_image: Seq<char>,
    pub command: Seq<char>,
    pub win_pos: WinPosView,
}

impl View for ScriptConfig {
    type V = ScriptConfigView;

    open spec fn view(&self) -> ScriptConfigView {
        ScriptConfigView {
            scrolling: self.scrolling,
            scrolling_speed: self.scrolling_speed,
            max_width: self.max_width,
            minimal_image: self.minimal_image@,
            command: self.command@,
            win_pos: self.win_pos@,
        }
    }
}

impl ScriptConfig {
    /// The compiled-in defaults.
    pub open spec fn default_view() -> ScriptConfigView {
        ScriptConfigView {
            scrolling: true,
            scrolling_speed: 0x41F0_0000,
            max_width: 300,
            minimal_image: "image-missing-symbolic"@,
            command: "test"@,
            win_pos: WinPos::default_view(),
        }
    }
}

impl Default for ScriptConfig {
    fn default() -> (conf: ScriptConfig)
        ensures
            conf@ == ScriptConfig::default_view(),
    {
        ScriptConfig {
            scrolling: true,
            scrolling_speed: 0x41F0_0000,
            max_width: 300,
            minimal_image: "image-missing-symbolic".to_owned(),
            command: "test".to_owned(),
            win_pos: WinPos::default(),
        }
    }
}

impl Clone for ScriptConfig {
    fn clone(&self) -> (copy: ScriptConfig)
        ensures
            copy == *self,
    {
        ScriptConfig {
            scrolling: self.scrolling,
            scrolling_speed: self.scrolling_speed,
            max_width: self.max_width,
            minimal_image: self.minimal_image.clone(),
            command: self.command.clone(),
            win_pos: self.win_pos.clone(),
        }
    }
}

impl PartialEqSpecImpl for ScriptConfig {
    open spec fn obeys_eq_spec() -> bool {
        true
    }

    open spec fn eq_spec(&self, other: &ScriptConfig) -> bool {
        self@ == other@
    }
}

impl PartialEq for ScriptConfig {
    fn eq(&self, other: &ScriptConfig) -> (same: bool) {
        self.scrolling == other.scrolling
            && self.scrolling_speed == other.scrolling_speed
            && self.max_width == other.max_width
            && self.minimal_image == other.minimal_image
            && self.command == other.command
            && self.win_pos == other.win_pos
    }
}

/// A partial [`ScriptConfig`]: each field is set or left to a default.
#[derive(Debug, Clone)]
pub struct DeScriptConfig {
    pub scrolling: Option<bool>,
    pub scrolling_speed: Option<u32>,
    pub max_width: Option<i32>,
    pub minimal_image: Option<String>,
    pub command: Option<String>,
    pub win_pos: Option<DeWinPos>,
}

/// What a [`DeScriptConfig`] holds, as mathematical values.
pub ghost struct DeScriptConfigView {
    pub scrolling: Option<bool>,
    pub scrolling_speed: Option<u32>,
    pub max_width: Option<i32>,
    pub minimal_image: Option<Seq<char>>,
    pub command: Option<Seq<char>>,
    pub win_pos: Option<DeWinPosView>,
}

impl View for DeScriptConfig {
    type V = DeScriptConfigView;

    open spec fn view(&self) -> DeScriptConfigView {
        DeScriptConfigView {
            scrolling: self.scrolling,
            scrolling_speed: self.scrolling_speed,
            max_width: self.max_width,
            minimal_image: text_view(self.minimal_image),
            command: text_view(self.command),
            win_pos: match self.win_pos {
                Some(inner) => Some(inner@),
                None => None,
            },
        }
    }
}

impl Default for DeScriptConfig {
    fn default() -> (overlay: DeScriptConfig)
        ensures
            overlay@ == DeScriptConfig::empty_view(),
    {
        DeScriptConfig {
            scrolling: None,
            scrolling_speed: None,
            max_width: None,
            minimal_image: None,
            command: None,
            win_pos: None,
        }
    }
}

impl DeScriptConfig {
    /// The overlay that sets no field.
    pub open spec fn empty_view() -> DeScriptConfigView {
        DeScriptConfigView {
            scrolling: None,
            scrolling_speed: None,
            max_width: None,
            minimal_image: None,
            command: None,
            win_pos: None,
        }
    }

    /// The configuration that an overlay resolves to against a default:
    /// field by field, the overlay's value where it has one, else the
    /// default's. A compound field resolves its own
    /// overlay against the default's compound value.
    pub open spec fn resolved(
        overlay: DeScriptConfigView,
        default: ScriptConfigView,
    ) -> ScriptConfigView {
        ScriptConfigView {
            scrolling: match overlay.scrolling {
                Some(value) => value,
                None => default.scrolling,
            },
            scrolling_speed: match overlay.scrolling_speed {
                Some(value) => value,
                None => default.scrolling_speed,
            },
            max_width: match overlay.max_width {
                Some(value) => value,
                None => default.max_width,
            },
            minimal_image: match overlay.minimal_image {
                Some(value) => value,
                None => default.minimal_image,
            },
            command: match overlay.command {
                Some(value) => value,
                None => default.command,
            },
            win_pos: match overlay.win_pos {
                Some(inner) => DeWinPos::resolved(inner, default.win_pos),
                None => default.win_pos,
            },
        }
    }

    /// Resolves the overlay against `default`, leaving the overlay in place.
    pub fn resolve(&self, default: &ScriptConfig) -> (conf: ScriptConfig)
        ensures
            conf@ == Self::resolved(self@, default@),
    {
        ScriptConfig {
            scrolling: match self.scrolling {
                Some(value) => value,
                None => default.scrolling,
            },
            scrolling_speed: match self.scrolling_speed {
                Some(value) => value,
                None => default.scrolling_speed,
            },
            max_width: match self.max_width {
                Some(value) => value,
                None => default.max_width,
            },
            minimal_image: match &self.minimal_image {
                Some(value) => value.clone(),
                None => default.minimal_image.clone(),
            },
            command: match &self.command {
                Some(value) => value.clone(),
                None => default.command.clone(),
            },
            win_pos: match &self.win_pos {
                Some(inner) => inner.resolve(&default.win_pos),
                None => default.win_pos.clone(),
            },
        }
    }

    /// Resolves the overlay against `default`.
    pub fn into_config(self, default: &ScriptConfig) -> (conf: ScriptConfig)
        ensures
            conf@ == Self::resolved(self@, default@),
    {
        self.resolve(default)
    }

    /// Resolution goes field by field: a field that the overlay sets takes
    /// the overlay's value whatever the default holds, and a field that it
    /// leaves open takes the default's value.
    pub proof fn lemma_field_by_field(overlay: DeScriptConfigView, default: ScriptConfigView)
        ensures
            ({
                let resolved = Self::resolved(overlay, default);
                &&& overlay.scrolling matches Some(value) ==> resolved.scrolling == value
                &&& overlay.scrolling is None ==> resolved.scrolling == default.scrolling
                &&& overlay.scrolling_speed matches Some(value) ==> resolved.scrolling_speed
                    == value
                &&& overlay.scrolling_speed is None ==> resolved.scrolling_speed
                    == default.scrolling_speed
                &&& overlay.max_width matches Some(value) ==> resolved.max_width == value
                &&& overlay.max_width is None ==> resolved.max_width == default.max_width
                &&& overlay.minimal_image matches Some(value) ==> resolved.minimal_image == value
                &&& overlay.minimal_image is None ==> resolved.minimal_image
                    == default.minimal_image
                &&& overlay.command matches Some(value) ==> resolved.command == value
                &&& overlay.command is None ==> resolved.command == default.command
                &&& overlay.win_pos matches Some(inner) ==> resolved.win_pos == DeWinPos::resolved(
                    inner,
                    default.win_pos,
                )
                &&& overlay.win_pos is None ==> resolved.win_pos == default.win_pos
            }),
    {
    }
}

/// The configuration of the script module: the fields that all instances
/// share, and the instances that each window lists. A child-only field is
/// not among them.
#[derive(Debug, Clone)]
pub struct ScriptConfigMain {
    pub scrolling: bool,
    pub scrolling_speed: u32,
    pub max_width: i32,
    pub minimal_image: String,
    pub win_pos: WinPos,
    /// The instances of each window, in instance order.
    pub windows: WindowMap<ScriptConfig>,
}

/// What a [`ScriptConfigMain`] holds, as mathematical values.
pub ghost struct ScriptConfigMainView {
    pub scrolling: bool,
    pub scrolling_speed: u32,
    pub max_width: i32,
    pub minimal_image: Seq<char>,
    pub win_pos: WinPosView,
    pub windows: Map<Seq<char>, Seq<ScriptConfigView>>,
}

/// The views of a window's instances.
pub open spec fn instance_views(list: Seq<ScriptConfig>) -> Seq<ScriptConfigView> {
    list.map_values(|conf: ScriptConfig| conf@)
}

/// The views of a window's overlays.
pub open spec fn overlay_views(list: Seq<DeScriptConfig>) -> Seq<DeScriptConfigView> {
    list.map_values(|overlay: DeScriptConfig| overlay@)
}

/// The views of a window's overlays, each resolved against `default`.
pub open spec fn resolved_views(list: Seq<DeScriptConfig>, default: ScriptConfigView) -> Seq<
    ScriptConfigView,
> {
    overlay_views(list).map_values(|o: DeScriptConfigView| DeScriptConfig::resolved(o, default))
}

impl View for ScriptConfigMain {
    type V = ScriptConfigMainView;

    open spec fn view(&self) -> ScriptConfigMainView {
        ScriptConfigMainView {
            scrolling: self.scrolling,
            scrolling_speed: self.scrolling_speed,
            max_width: self.max_width,
            minimal_image: self.minimal_image@,
            win_pos: self.win_pos@,
            windows: self.windows@.map_values(|list: Seq<ScriptConfig>| instance_views(list)),
        }
    }
}

impl ScriptConfigMainView {
    /// The configuration of an instance that no window lists: the shared
    /// fields as they are configured. A child-only field is never
    /// shared: it comes from the compiled-in defaults.
    pub open spec fn default_conf(self) -> ScriptConfigView {
        ScriptConfigView {
            scrolling: self.scrolling,
            scrolling_speed: self.scrolling_speed,
            max_width: self.max_width,
            minimal_image: self.minimal_image,
            command: ScriptConfig::default_view().command,
            win_pos: self.win_pos,
        }
    }

    /// The configuration of instance `idx` of `window`: the listed one where
    /// the window has that many instances, else [`Self::default_conf`].
    pub open spec fn get_for_window(self, window: Seq<char>, idx: int) -> ScriptConfigView {
        if self.windows.contains_key(window) && 0 <= idx < self.windows[window].len() {
            self.windows[window][idx]
        } else {
            self.default_conf()
        }
    }
}

impl ScriptConfigMain {
    /// The configuration of an instance that no window lists.
    pub fn default_conf(&self) -> (conf: ScriptConfig)
        ensures
            conf@ == self@.default_conf(),
    {
        let child_default = ScriptConfig::default();
        ScriptConfig {
            scrolling: self.scrolling,
            scrolling_speed: self.scrolling_speed,
            max_width: self.max_width,
            minimal_image: self.minimal_image.clone(),
            command: child_default.command,
            win_pos: self.win_pos.clone(),
        }
    }

    /// The configuration of instance `idx` of `window`. An instance past the
    /// end of its window's list, or on a window that is not configured, gets
    /// the default configuration.
    pub fn get_for_window(&self, window: &str, idx: usize) -> (conf: ScriptConfig)
        ensures
            conf@ == self@.get_for_window(window@, idx as int),
    {
        if let Some(list) = self.windows.get(window) {
            if idx < list.len() {
                return list[idx].clone();
            }
        }
        self.default_conf()
    }
}

impl ScriptConfigMain {
    /// The compiled-in defaults without any window.
    pub open spec fn default_view() -> ScriptConfigMainView {
        ScriptConfigMainView {
            scrolling: ScriptConfig::default_view().scrolling,
            scrolling_speed: ScriptConfig::default_view().scrolling_speed,
            max_width: ScriptConfig::default_view().max_width,
            minimal_image: ScriptConfig::default_view().minimal_image,
            win_pos: ScriptConfig::default_view().win_pos,
            windows: Map::empty(),
        }
    }
}

impl Default for ScriptConfigMain {
    fn default() -> (main: ScriptConfigMain)
        ensures
            main@ == ScriptConfigMain::default_view(),
    {
        let child_default = ScriptConfig::default();
        let main = ScriptConfigMain {
            scrolling: child_default.scrolling,
            scrolling_speed: child_default.scrolling_speed,
            max_width: child_default.max_width,
            minimal_image: child_default.minimal_image,
            win_pos: child_default.win_pos,
            windows: WindowMap::new(),
        };
        assert(main@.windows =~= Map::<Seq<char>, Seq<ScriptConfigView>>::empty());
        main
    }
}

/// The configuration of the script module as it is written down: the
/// shared fields, and for each window the overlays of its instances.
#[derive(Debug, Clone)]
pub struct DeScriptConfigMain {
    pub scrolling: bool,
    pub scrolling_speed: u32,
    pub max_width: i32,
    pub minimal_image: String,
    pub win_pos: WinPos,
    /// The overlays of each window, in instance order.
    pub windows: WindowMap<DeScriptConfig>,
}

/// What a [`DeScriptConfigMain`] holds, as mathematical values.
pub ghost struct DeScriptConfigMainView {
    pub scrolling: bool,
    pub scrolling_speed: u32,
    pub max_width: i32,
    pub minimal_image: Seq<char>,
    pub win_pos: WinPosView,
    pub windows: Map<Seq<char>, Seq<DeScriptConfigView>>,
}

impl View for DeScriptConfigMain {
    type V = DeScriptConfigMainView;

    open spec fn view(&self) -> DeScriptConfigMainView {
        DeScriptConfigMainView {
            scrolling: self.scrolling,
            scrolling_speed: self.scrolling_speed,
            max_width: self.max_width,
            minimal_image: self.minimal_image@,
            win_pos: self.win_pos@,
            windows: self.windows@.map_values(|list: Seq<DeScriptConfig>| overlay_views(list)),
        }
    }
}

impl DeScriptConfigMain {
    /// The overlay that configures nothing: the compiled-in defaults and no
    /// window.
    pub open spec fn default_view() -> DeScriptConfigMainView {
        DeScriptConfigMainView {
            scrolling: ScriptConfig::default_view().scrolling,
            scrolling_speed: ScriptConfig::default_view().scrolling_speed,
            max_width: ScriptConfig::default_view().max_width,
            minimal_image: ScriptConfig::default_view().minimal_image,
            win_pos: ScriptConfig::default_view().win_pos,
            windows: Map::empty(),
        }
    }
}

impl Default for DeScriptConfigMain {
    fn default() -> (overlay: DeScriptConfigMain)
        ensures
            overlay@ == DeScriptConfigMain::default_view(),
    {
        let child_default = ScriptConfig::default();
        let overlay = DeScriptConfigMain {
            scrolling: child_default.scrolling,
            scrolling_speed: child_default.scrolling_speed,
            max_width: child_default.max_width,
            minimal_image: child_default.minimal_image,
            win_pos: child_default.win_pos,
            windows: WindowMap::new(),
        };
        assert(overlay@.windows =~= Map::<Seq<char>, Seq<DeScriptConfigView>>::empty());
        overlay
    }
}

impl DeScriptConfigMainView {
    /// The shared fields of the overlay with no window yet.
    pub open spec fn shared(self) -> ScriptConfigMainView {
        ScriptConfigMainView {
            scrolling: self.scrolling,
            scrolling_speed: self.scrolling_speed,
            max_width: self.max_width,
            minimal_image: self.minimal_image,
            win_pos: self.win_pos,
            windows: Map::empty(),
        }
    }

    /// The configuration that the overlay resolves to: the shared fields as
    /// they stand, and for each window of the overlay its entries, each
    /// resolved against the default configuration of the shared fields.
    pub open spec fn into_main_config(self) -> ScriptConfigMainView {
        ScriptConfigMainView {
            scrolling: self.scrolling,
            scrolling_speed: self.scrolling_speed,
            max_width: self.max_width,
            minimal_image: self.minimal_image,
            win_pos: self.win_pos,
            windows: self.windows.map_values(
                |list: Seq<DeScriptConfigView>|
                    list.map_values(
                        |o: DeScriptConfigView| DeScriptConfig::resolved(o, self.shared().default_conf()),
                    ),
            ),
        }
    }
}

/// Resolves each overlay of one window against `default`.
fn resolve_instances(overlays: &Vec<DeScriptConfig>, default: &ScriptConfig) -> (list: Vec<
    ScriptConfig,
>)
    ensures
        list@.len() == overlays@.len(),
        forall|k: int|
            0 <= k < list@.len() ==> (#[trigger] list@[k])@ == DeScriptConfig::resolved(
                overlays@[k]@,
                default@,
            ),
{
    let mut list: Vec<ScriptConfig> = Vec::new();
    let mut k: usize = 0;
    while k < overlays.len()
        invariant
            k <= overlays.len(),
            list@.len() == k,
            forall|m: int|
                0 <= m < k ==> (#[trigger] list@[m])@ == DeScriptConfig::resolved(
                    overlays@[m]@,
                    default@,
                ),
        decreases overlays.len() - k,
    {
        list.push(overlays[k].resolve(default));
        k += 1;
    }
    list
}

impl DeScriptConfigMain {
    /// Resolves the overlay into a full configuration. A window that the
    /// overlay does not name gets no instance; the windows keep their order.
    pub fn into_main_config(self) -> (main: ScriptConfigMain)
        ensures
            main@ == self@.into_main_config(),
            main.windows.names() == self.windows.names(),
    {
        let ghost overlay = self@;
        let DeScriptConfigMain {
            scrolling,
            scrolling_speed,
            max_width,
            minimal_image,
            win_pos,
            windows: overlays,
        } = self;
        let mut main_conf = ScriptConfigMain {
            scrolling,
            scrolling_speed,
            max_width,
            minimal_image,
            win_pos,
            windows: WindowMap::new(),
        };
        assert(main_conf@.windows =~= Map::<Seq<char>, Seq<ScriptConfigView>>::empty());
        assert(main_conf@ == overlay.shared());
        let child_default = main_conf.default_conf();
        let mut windows: WindowMap<ScriptConfig> = WindowMap::new();
        let count = overlays.len();
        let mut i: usize = 0;
        while i < count
            invariant
                i <= count,
                count == overlays.names().len(),
                overlays.well_formed(),
                windows.well_formed(),
                windows.names() == overlays.names().take(i as int),
                forall|m: int|
                    0 <= m < i ==> instance_views(#[trigger] windows.lists()[m]) == resolved_views(
                        overlays.lists()[m],
                        child_default@,
                    ),
            decreases count - i,
        {
            let (name, list) = overlays.entry(i);
            let resolved = resolve_instances(list, &child_default);
            let ghost before = windows;
            assert(!before.names().contains(name@)) by {
                if before.names().contains(name@) {
                    let at = before.names().index_of(name@);
                    assert(overlays.names()[at] == overlays.names()[i as int]);
                }
            }
            windows.insert(name.to_owned(), resolved);
            assert(windows.names() =~= overlays.names().take(i + 1));
            assert(instance_views(resolved@) =~= resolved_views(list@, child_default@));
            assert forall|m: int| 0 <= m < i + 1 implies instance_views(
                #[trigger] windows.lists()[m],
            ) == resolved_views(overlays.lists()[m], child_default@) by {
                if m < i {
                    assert(windows.lists()[m] == before.lists()[m]);
                }
            }
            i += 1;
        }
        assert(windows.names() =~= overlays.names());
        main_conf.windows = windows;
        proof {
            let want = overlay.into_main_config().windows;
            let have = main_conf@.windows;
            assert forall|n: Seq<char>| have.contains_key(n) implies #[trigger] have[n]
                == want[n] by {
                let at = overlays.names().index_of(n);
                assert(main_conf.windows.names().index_of(n) == at);
            }
            assert(have =~= want);
        }
        main_conf
    }
}

/// The empty overlay resolves to the default it is resolved against.
pub proof fn lemma_empty_overlay_is_default(default: ScriptConfigView)
    ensures
        DeScriptConfig::resolved(DeScriptConfig::empty_view(), default) == default,
{
}

/// The overlay that configures nothing gives every instance of every
/// window, whether the window exists or not, the compiled-in defaults.
pub proof fn lemma_unconfigured_is_default(window: Seq<char>, idx: int)
    ensures
        DeScriptConfigMain::default_view().into_main_config().get_for_window(window, idx)
            == ScriptConfig::default_view(),
{
    let main = DeScriptConfigMain::default_view().into_main_config();
    assert(!main.windows.contains_key(window));
}

/// An instance that an overlay lists gets the overlay entry's own value for
/// each field that the entry sets, whatever the defaults hold, and the
/// default configuration's value for each field that it leaves unset.
pub proof fn lemma_listed_instance(overlay: DeScriptConfigMainView, window: Seq<char>, idx: int)
    requires
        overlay.windows.contains_key(window),
        0 <= idx < overlay.windows[window].len(),
    ensures
        overlay.into_main_config().get_for_window(window, idx) == DeScriptConfig::resolved(
            overlay.windows[window][idx],
            overlay.into_main_config().default_conf(),
        ),
{
}

/// An instance that an overlay does not list gets the default
/// configuration.
pub proof fn lemma_unlisted_instance(overlay: DeScriptConfigMainView, window: Seq<char>, idx: int)
    requires
        !overlay.windows.contains_key(window) || !(0 <= idx < overlay.windows[window].len()),
    ensures
        overlay.into_main_config().get_for_window(window, idx)
            == overlay.into_main_config().default_conf(),
{
}

} // verus!
