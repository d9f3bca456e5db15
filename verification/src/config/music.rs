//! Configuration of the music activities.

use crate::config::text_view;
use crate::windows::WindowMap;
use vstd::prelude::*;
use vstd::std_specs::cmp::PartialEqSpecImpl;

verus! {

/// Where the compact view of the music activity shows the artist.
#[derive(Debug, Clone, Copy, PartialEq, Eq, Structural)]
pub enum ArtistMode {
    /// Before the title.
    Leading,
    /// Behind the title.
    Trailing,
    /// Below the title, centred.
    Bottom,
    /// The artist is not shown.
    Hidden,
}

/// The configuration of one music activity, every field resolved.
#[derive(Debug, Eq)]
pub struct MusicConfig {
    /// The player to follow when several are running; empty for any.
    pub preferred_player: String,
    /// Album art to show when the player gives none.
    pub default_album_art_url: String,
    /// Speed of the scrolling labels in pixels per second, as the bits of
    /// an IEEE 754 single-precision number. The default is 30.
    pub scrolling_label_speed: u32,
    /// Command whose output feeds the visualizer.
    pub cava_visualizer_script: String,
    /// Whether another player may stand in for the preferred one.
    pub use_fallback_player: bool,
    /// Where the compact view shows the artist.
    pub compact_artist_mode: ArtistMode,
}

/// What a [`MusicConfig`] holds, as mathematical values.
pub ghost struct MusicConfigView {
    pub preferred_player: Seq<char>,
    pub default_album_art_url: Seq<char>,
    pub scrolling_label_speed: u32,
    pub cava_visualizer_script: Seq<char>,
    pub use_fallback_player: bool,
    pub compact_artist_mode: ArtistMode,
}

impl View for MusicConfig {
    type V = MusicConfigView;

    open spec fn view(&self) -> MusicConfigView {
        MusicConfigView {
            preferred_player: self.preferred_player@,
            default_album_art_url: self.default_album_art_url@,
            scrolling_label_speed: self.scrolling_label_speed,
            cava_visualizer_script: self.cava_visualizer_script@,
            use_fallback_player: self.use_fallback_player,
            compact_artist_mode: self.compact_artist_mode,
        }
    }
}

impl MusicConfig {
    /// The compiled-in defaults.
    pub open spec fn default_view() -> MusicConfigView {
        MusicConfigView {
            preferred_player: ""@,
            default_album_art_url: ""@,
            scrolling_label_speed: 0x41F0_0000,
            cava_visualizer_script: "echo 0,0,0,0,0,0"@,
            use_fallback_player: true,
            compact_artist_mode: ArtistMode::Hidden,
        }
    }
}

impl Default for MusicConfig {
    fn default() -> (conf: MusicConfig)
        ensures
            conf@ == MusicConfig::default_view(),
    {
        MusicConfig {
            preferred_player: "".to_owned(),
            default_album_art_url: "".to_owned(),
            scrolling_label_speed: 0x41F0_0000,
            cava_visualizer_script: "echo 0,0,0,0,0,0".to_owned(),
            use_fallback_player: true,
            compact_artist_mode: ArtistMode::Hidden,
        }
    }
}

impl Clone for MusicConfig {
    fn clone(&self) -> (copy: MusicConfig)
        ensures
            copy == *self,
    {
        MusicConfig {
            preferred_player: self.preferred_player.clone(),
            default_album_art_url: self.default_album_art_url.clone(),
            scrolling_label_speed: self.scrolling_label_speed,
            cava_visualizer_script: self.cava_visualizer_script.clone(),
            use_fallback_player: self.use_fallback_player,
            compact_artist_mode: self.compact_artist_mode,
        }
    }
}

impl PartialEqSpecImpl for MusicConfig {
    open spec fn obeys_eq_spec() -> bool {
        true
    }

    open spec fn eq_spec(&self, other: &MusicConfig) -> bool {
        self@ == other@
    }
}

impl PartialEq for MusicConfig {
    fn eq(&self, other: &MusicConfig) -> (same: bool) {
        self.preferred_player == other.preferred_player
            && self.default_album_art_url == other.default_album_art_url
            && self.scrolling_label_speed == other.scrolling_label_speed
            && self.cava_visualizer_script == other.cava_visualizer_script
            && self.use_fallback_player == other.use_fallback_player
            && self.compact_artist_mode == other.compact_artist_mode
    }
}

/// A partial [`MusicConfig`]: each field is set or left to a default.
#[derive(Debug, Clone)]
pub struct DeMusicConfig {
    pub preferred_player: Option<String>,
    pub default_album_art_url: Option<String>,
    pub scrolling_label_speed: Option<u32>,
    pub cava_visualizer_script: Option<String>,
    pub use_fallback_player: Option<bool>,
    pub compact_artist_mode: Option<ArtistMode>,
}

/// What a [`DeMusicConfig`] holds, as mathematical values.
pub ghost struct DeMusicConfigView {
    pub preferred_player: Option<Seq<char>>,
    pub default_album_art_url: Option<Seq<char>>,
    pub scrolling_label_speed: Option<u32>,
    pub cava_visualizer_script: Option<Seq<char>>,
    pub use_fallback_player: Option<bool>,
    pub compact_artist_mode: Option<ArtistMode>,
}

impl View for DeMusicConfig {
    type V = DeMusicConfigView;

    open spec fn view(&self) -> DeMusicConfigView {
        DeMusicConfigView {
            preferred_player: text_view(self.preferred_player),
            default_album_art_url: text_view(self.default_album_art_url),
            scrolling_label_speed: self.scrolling_label_speed,
            cava_visualizer_script: text_view(self.cava_visualizer_script),
            use_fallback_player: self.use_fallback_player,
            compact_artist_mode: self.compact_artist_mode,
        }
    }
}

impl Default for DeMusicConfig {
    fn default() -> (overlay: DeMusicConfig)
        ensures
            overlay@ == DeMusicConfig::empty_view(),
    {
        DeMusicConfig {
            preferred_player: None,
            default_album_art_url: None,
            scrolling_label_speed: None,
            cava_visualizer_script: None,
            use_fallback_player: None,
            compact_artist_mode: None,
        }
    }
}

impl DeMusicConfig {
    /// The overlay that sets no field.
    pub open spec fn empty_view() -> DeMusicConfigView {
        DeMusicConfigView {
            preferred_player: None,
            default_album_art_url: None,
            scrolling_label_speed: None,
            cava_visualizer_script: None,
            use_fallback_player: None,
            compact_artist_mode: None,
        }
    }

    /// The configuration that an overlay resolves to against a default:
    /// field by field, the overlay's value where it has one, else the
    /// default's.
    pub open spec fn resolved(
        overlay: DeMusicConfigView,
        default: MusicConfigView,
    ) -> MusicConfigView {
        MusicConfigView {
            preferred_player: match overlay.preferred_player {
                Some(value) => value,
                None => default.preferred_player,
            },
            default_album_art_url: match overlay.default_album_art_url {
                Some(value) => value,
                None => default.default_album_art_url,
            },
            scrolling_label_speed: match overlay.scrolling_label_speed {
                Some(value) => value,
                None => default.scrolling_label_speed,
            },
            cava_visualizer_script: match overlay.cava_visualizer_script {
                Some(value) => value,
                None => default.cava_visualizer_script,
            },
            use_fallback_player: match overlay.use_fallback_player {
                Some(value) => value,
                None => default.use_fallback_player,
            },
            compact_artist_mode: match overlay.compact_artist_mode {
                Some(value) => value,
                None => default.compact_artist_mode,
            },
        }
    }

    /// Resolves the overlay against `default`, leaving the overlay in place.
    pub fn resolve(&self, default: &MusicConfig) -> (conf: MusicConfig)
        ensures
            conf@ == Self::resolved(self@, default@),
    {
        MusicConfig {
            preferred_player: match &self.preferred_player {
                Some(value) => value.clone(),
                None => default.preferred_player.clone(),
            },
            default_album_art_url: match &self.default_album_art_url {
                Some(value) => value.clone(),
                None => default.default_album_art_url.clone(),
            },
            scrolling_label_speed: match self.scrolling_label_speed {
                Some(value) => value,
                None => default.scrolling_label_speed,
            },
            cava_visualizer_script: match &self.cava_visualizer_script {
                Some(value) => value.clone(),
                None => default.cava_visualizer_script.clone(),
            },
            use_fallback_player: match self.use_fallback_player {
                Some(value) => value,
                None => default.use_fallback_player,
            },
            compact_artist_mode: match self.compact_artist_mode {
                Some(value) => value,
                None => default.compact_artist_mode,
            },
        }
    }

    /// Resolves the overlay against `default`.
    pub fn into_config(self, default: &MusicConfig) -> (conf: MusicConfig)
        ensures
            conf@ == Self::resolved(self@, default@),
    {
        self.resolve(default)
    }

    /// Resolution goes field by field: a field that the overlay sets takes
    /// the overlay's value whatever the default holds, and a field that it
    /// leaves open takes the default's value.
    pub proof fn lemma_field_by_field(overlay: DeMusicConfigView, default: MusicConfigView)
        ensures
            ({
                let resolved = Self::resolved(overlay, default);
                &&& overlay.preferred_player matches Some(value) ==> resolved.preferred_player
                    == value
                &&& overlay.preferred_player is None ==> resolved.preferred_player
                    == default.preferred_player
                &&& overlay.default_album_art_url matches Some(value) ==> resolved.default_album_art_url
                    == value
                &&& overlay.default_album_art_url is None ==> resolved.default_album_art_url
                    == default.default_album_art_url
                &&& overlay.scrolling_label_speed matches Some(value) ==> resolved.scrolling_label_speed
                    == value
                &&& overlay.scrolling_label_speed is None ==> resolved.scrolling_label_speed
                    == default.scrolling_label_speed
                &&& overlay.cava_visualizer_script matches Some(value) ==> resolved.cava_visualizer_script
                    == value
                &&& overlay.cava_visualizer_script is None ==> resolved.cava_visualizer_script
                    == default.cava_visualizer_script
                &&& overlay.use_fallback_player matches Some(value) ==> resolved.use_fallback_player
                    == value
                &&& overlay.use_fallback_player is None ==> resolved.use_fallback_player
                    == default.use_fallback_player
                &&& overlay.compact_artist_mode matches Some(value) ==> resolved.compact_artist_mode
                    == value
                &&& overlay.compact_artist_mode is None ==> resolved.compact_artist_mode
                    == default.compact_artist_mode
            }),
    {
    }
}

/// The configuration of the music module: the fields that all instances
/// share, and the instances that each window lists.
#[derive(Debug, Clone)]
pub struct MusicConfigMain {
    pub preferred_player: String,
    pub default_album_art_url: String,
    pub scrolling_label_speed: u32,
    pub cava_visualizer_script: String,
    pub use_fallback_player: bool,
    pub compact_artist_mode: ArtistMode,
    /// The instances of each window, in instance order.
    pub windows: WindowMap<MusicConfig>,
}

/// What a [`MusicConfigMain`] holds, as mathematical values.
pub ghost struct MusicConfigMainView {
    pub preferred_player: Seq<char>,
    pub default_album_art_url: Seq<char>,
    pub scrolling_label_speed: u32,
    pub cava_visualizer_script: Seq<char>,
    pub use_fallback_player: bool,
    pub compact_artist_mode: ArtistMode,
    pub windows: Map<Seq<char>, Seq<MusicConfigView>>,
}

/// The views of a window's instances.
pub open spec fn instance_views(list: Seq<MusicConfig>) -> Seq<MusicConfigView> {
    list.map_values(|conf: MusicConfig| conf@)
}

/// The views of a window's overlays.
pub open spec fn overlay_views(list: Seq<DeMusicConfig>) -> Seq<DeMusicConfigView> {
    list.map_values(|overlay: DeMusicConfig| overlay@)
}

/// The views of a window's overlays, each resolved against `default`.
pub open spec fn resolved_views(list: Seq<DeMusicConfig>, default: MusicConfigView) -> Seq<
    MusicConfigView,
> {
    overlay_views(list).map_values(|o: DeMusicConfigView| DeMusicConfig::resolved(o, default))
}

impl View for MusicConfigMain {
    type V = MusicConfigMainView;

    open spec fn view(&self) -> MusicConfigMainView {
        MusicConfigMainView {
            preferred_player: self.preferred_player@,
            default_album_art_url: self.default_album_art_url@,
            scrolling_label_speed: self.scrolling_label_speed,
            cava_visualizer_script: self.cava_visualizer_script@,
            use_fallback_player: self.use_fallback_player,
            compact_artist_mode: self.compact_artist_mode,
            windows: self.windows@.map_values(|list: Seq<MusicConfig>| instance_views(list)),
        }
    }
}

impl MusicConfigMainView {
    /// The configuration of an instance that no window lists: the shared
    /// fields as they are configured.
    pub open spec fn default_conf(self) -> MusicConfigView {
        MusicConfigView {
            preferred_player: self.preferred_player,
            default_album_art_url: self.default_album_art_url,
            scrolling_label_speed: self.scrolling_label_speed,
            cava_visualizer_script: self.cava_visualizer_script,
            use_fallback_player: self.use_fallback_player,
            compact_artist_mode: self.compact_artist_mode,
        }
    }

    /// The configuration of instance `idx` of `window`: the listed one where
    /// the window has that many instances, else [`Self::default_conf`].
    pub open spec fn get_for_window(self, window: Seq<char>, idx: int) -> MusicConfigView {
        if self.windows.contains_key(window) && 0 <= idx < self.windows[window].len() {
            self.windows[window][idx]
        } else {
            self.default_conf()
        }
    }
}

impl MusicConfigMain {
    /// The configuration of an instance that no window lists.
    pub fn default_conf(&self) -> (conf: MusicConfig)
        ensures
            conf@ == self@.default_conf(),
    {
        MusicConfig {
            preferred_player: self.preferred_player.clone(),
            default_album_art_url: self.default_album_art_url.clone(),
            scrolling_label_speed: self.scrolling_label_speed,
            cava_visualizer_script: self.cava_visualizer_script.clone(),
            use_fallback_player: self.use_fallback_player,
            compact_artist_mode: self.compact_artist_mode,
        }
    }

    /// The configuration of instance `idx` of `window`. An instance past the
    /// end of its window's list, or on a window that is not configured, gets
    /// the default configuration.
    pub fn get_for_window(&self, window: &str, idx: usize) -> (conf: MusicConfig)
        ensures
            conf@ == self@.get_for_window(window@, idx as int),
    {
        if let Some(list) = self.windows.get(window) {
            if idx < list.len() {
                return list[idx].clone();
            }
        }
        self.default_conf()
    }
}

impl MusicConfigMain {
    /// The compiled-in defaults without any window.
    pub open spec fn default_view() -> MusicConfigMainView {
        MusicConfigMainView {
            preferred_player: MusicConfig::default_view().preferred_player,
            default_album_art_url: MusicConfig::default_view().default_album_art_url,
            scrolling_label_speed: MusicConfig::default_view().scrolling_label_speed,
            cava_visualizer_script: MusicConfig::default_view().cava_visualizer_script,
            use_fallback_player: MusicConfig::default_view().use_fallback_player,
            compact_artist_mode: MusicConfig::default_view().compact_artist_mode,
            windows: Map::empty(),
        }
    }
}

impl Default for MusicConfigMain {
    fn default() -> (main: MusicConfigMain)
        ensures
            main@ == MusicConfigMain::default_view(),
    {
        let child_default = MusicConfig::default();
        let main = MusicConfigMain {
            preferred_player: child_default.preferred_player,
            default_album_art_url: child_default.default_album_art_url,
            scrolling_label_speed: child_default.scrolling_label_speed,
            cava_visualizer_script: child_default.cava_visualizer_script,
            use_fallback_player: child_default.use_fallback_player,
            compact_artist_mode: child_default.compact_artist_mode,
            windows: WindowMap::new(),
        };
        assert(main@.windows =~= Map::<Seq<char>, Seq<MusicConfigView>>::empty());
        main
    }
}

/// The configuration of the music module as it is written down: the shared
/// fields, and for each window the overlays of its instances.
#[derive(Debug, Clone)]
pub struct DeMusicConfigMain {
    pub preferred_player: String,
    pub default_album_art_url: String,
    pub scrolling_label_speed: u32,
    pub cava_visualizer_script: String,
    pub use_fallback_player: bool,
    pub compact_artist_mode: ArtistMode,
    /// The overlays of each window, in instance order.
    pub windows: WindowMap<DeMusicConfig>,
}

/// What a [`DeMusicConfigMain`] holds, as mathematical values.
pub ghost struct DeMusicConfigMainView {
    pub preferred_player: Seq<char>,
    pub default_album_art_url: Seq<char>,
    pub scrolling_label_speed: u32,
    pub cava_visualizer_script: Seq<char>,
    pub use_fallback_player: bool,
    pub compact_artist_mode: ArtistMode,
    pub windows: Map<Seq<char>, Seq<DeMusicConfigView>>,
}

impl View for DeMusicConfigMain {
    type V = DeMusicConfigMainView;

    open spec fn view(&self) -> DeMusicConfigMainView {
        DeMusicConfigMainView {
            preferred_player: self.preferred_player@,
            default_album_art_url: self.default_album_art_url@,
            scrolling_label_speed: self.scrolling_label_speed,
            cava_visualizer_script: self.cava_visualizer_script@,
            use_fallback_player: self.use_fallback_player,
            compact_artist_mode: self.compact_artist_mode,
            windows: self.windows@.map_values(|list: Seq<DeMusicConfig>| overlay_views(list)),
        }
    }
}

impl DeMusicConfigMain {
    /// The overlay that configures nothing: the compiled-in defaults and no
    /// window.
    pub open spec fn default_view() -> DeMusicConfigMainView {
        DeMusicConfigMainView {
            preferred_player: MusicConfig::default_view().preferred_player,
            default_album_art_url: MusicConfig::default_view().default_album_art_url,
            scrolling_label_speed: MusicConfig::default_view().scrolling_label_speed,
            cava_visualizer_script: MusicConfig::default_view().cava_visualizer_script,
            use_fallback_player: MusicConfig::default_view().use_fallback_player,
            compact_artist_mode: MusicConfig::default_view().compact_artist_mode,
            windows: Map::empty(),
        }
    }
}

impl Default for DeMusicConfigMain {
    fn default() -> (overlay: DeMusicConfigMain)
        ensures
            overlay@ == DeMusicConfigMain::default_view(),
    {
        let child_default = MusicConfig::default();
        let overlay = DeMusicConfigMain {
            preferred_player: child_default.preferred_player,
            default_album_art_url: child_default.default_album_art_url,
            scrolling_label_speed: child_default.scrolling_label_speed,
            cava_visualizer_script: child_default.cava_visualizer_script,
            use_fallback_player: child_default.use_fallback_player,
            compact_artist_mode: child_default.compact_artist_mode,
            windows: WindowMap::new(),
        };
        assert(overlay@.windows =~= Map::<Seq<char>, Seq<DeMusicConfigView>>::empty());
        overlay
    }
}

impl DeMusicConfigMainView {
    /// The shared fields of the overlay with no window yet.
    pub open spec fn shared(self) -> MusicConfigMainView {
        MusicConfigMainView {
            preferred_player: self.preferred_player,
            default_album_art_url: self.default_album_art_url,
            scrolling_label_speed: self.scrolling_label_speed,
            cava_visualizer_script: self.cava_visualizer_script,
            use_fallback_player: self.use_fallback_player,
            compact_artist_mode: self.compact_artist_mode,
            windows: Map::empty(),
        }
    }

    /// The configuration that the overlay resolves to: the shared fields as
    /// they stand, and for each window of the overlay its entries, each
    /// resolved against the default configuration of the shared fields.
    pub open spec fn into_main_config(self) -> MusicConfigMainView {
        MusicConfigMainView {
            preferred_player: self.preferred_player,
            default_album_art_url: self.default_album_art_url,
            scrolling_label_speed: self.scrolling_label_speed,
            cava_visualizer_script: self.cava_visualizer_script,
            use_fallback_player: self.use_fallback_player,
            compact_artist_mode: self.compact_artist_mode,
            windows: self.windows.map_values(
                |list: Seq<DeMusicConfigView>|
                    list.map_values(
                        |o: DeMusicConfigView| DeMusicConfig::resolved(o, self.shared().default_conf()),
                    ),
            ),
        }
    }
}

/// Resolves each overlay of one window against `default`.
fn resolve_instances(overlays: &Vec<DeMusicConfig>, default: &MusicConfig) -> (list: Vec<
    MusicConfig,
>)
    ensures
        list@.len() == overlays@.len(),
        forall|k: int|
            0 <= k < list@.len() ==> (#[trigger] list@[k])@ == DeMusicConfig::resolved(
                overlays@[k]@,
                default@,
            ),
{
    let mut list: Vec<MusicConfig> = Vec::new();
    let mut k: usize = 0;
    while k < overlays.len()
        invariant
            k <= overlays.len(),
            list@.len() == k,
            forall|m: int|
                0 <= m < k ==> (#[trigger] list@[m])@ == DeMusicConfig::resolved(
                    overlays@[m]@,
                    default@,
                ),
        decreases overlays.len() - k,
    {
        list.push(overlays[k].resolve(default));
        k += 1;
    }
    list
}

impl DeMusicConfigMain {
    /// Resolves the overlay into a full configuration. A window that the
    /// overlay does not name gets no instance; the windows keep their order.
    pub fn into_main_config(self) -> (main: MusicConfigMain)
        ensures
            main@ == self@.into_main_config(),
            main.windows.names() == self.windows.names(),
    {
        let ghost overlay = self@;
        let DeMusicConfigMain {
            preferred_player,
            default_album_art_url,
            scrolling_label_speed,
            cava_visualizer_script,
            use_fallback_player,
            compact_artist_mode,
            windows: overlays,
        } = self;
        let mut main_conf = MusicConfigMain {
            preferred_player,
            default_album_art_url,
            scrolling_label_speed,
            cava_visualizer_script,
            use_fallback_player,
            compact_artist_mode,
            windows: WindowMap::new(),
        };
        assert(main_conf@.windows =~= Map::<Seq<char>, Seq<MusicConfigView>>::empty());
        assert(main_conf@ == overlay.shared());
        let child_default = main_conf.default_conf();
        let mut windows: WindowMap<MusicConfig> = WindowMap::new();
        let count = overlays.len();
        let mut i: usize = 0;
        while i < count
            invariant
                i <= count,
                count == overlays.names().len(),
                overlays.well_formed(),
                windows.well_formed(),
                windows.names() == overlays.names().take(i as int),
                forall|m: int|
                    0 <= m < i ==> instance_views(#[trigger] windows.lists()[m]) == resolved_views(
                        overlays.lists()[m],
                        child_default@,
                    ),
            decreases count - i,
        {
            let (name, list) = overlays.entry(i);
            let resolved = resolve_instances(list, &child_default);
            let ghost before = windows;
            assert(!before.names().contains(name@)) by {
                if before.names().contains(name@) {
                    let at = before.names().index_of(name@);
                    assert(overlays.names()[at] == overlays.names()[i as int]);
                }
            }
            windows.insert(name.to_owned(), resolved);
            assert(windows.names() =~= overlays.names().take(i + 1));
            assert(instance_views(resolved@) =~= resolved_views(list@, child_default@));
            assert forall|m: int| 0 <= m < i + 1 implies instance_views(
                #[trigger] windows.lists()[m],
            ) == resolved_views(overlays.lists()[m], child_default@) by {
                if m < i {
                    assert(windows.lists()[m] == before.lists()[m]);
                }
            }
            i += 1;
        }
        assert(windows.names() =~= overlays.names());
        main_conf.windows = windows;
        proof {
            let want = overlay.into_main_config().windows;
            let have = main_conf@.windows;
            assert forall|n: Seq<char>| have.contains_key(n) implies #[trigger] have[n]
                == want[n] by {
                let at = overlays.names().index_of(n);
                assert(main_conf.windows.names().index_of(n) == at);
            }
            assert(have =~= want);
        }
        main_conf
    }
}

/// The empty overlay resolves to the default it is resolved against.
pub proof fn lemma_empty_overlay_is_default(default: MusicConfigView)
    ensures
        DeMusicConfig::resolved(DeMusicConfig::empty_view(), default) == default,
{
}

/// The overlay that configures nothing gives every instance of every
/// window, whether the window exists or not, the compiled-in defaults.
pub proof fn lemma_unconfigured_is_default(window: Seq<char>, idx: int)
    ensures
        DeMusicConfigMain::default_view().into_main_config().get_for_window(window, idx)
            == MusicConfig::default_view(),
{
    let main = DeMusicConfigMain::default_view().into_main_config();
    assert(!main.windows.contains_key(window));
}

/// An instance that an overlay lists gets the overlay entry's own value for
/// each field that the entry sets, whatever the defaults hold, and the
/// default configuration's value for each field that it leaves unset.
pub proof fn lemma_listed_instance(overlay: DeMusicConfigMainView, window: Seq<char>, idx: int)
    requires
        overlay.windows.contains_key(window),
        0 <= idx < overlay.windows[window].len(),
    ensures
        overlay.into_main_config().get_for_window(window, idx) == DeMusicConfig::resolved(
            overlay.windows[window][idx],
            overlay.into_main_config().default_conf(),
        ),
{
}

/// An instance that an overlay does not list gets the default
/// configuration.
pub proof fn lemma_unlisted_instance(overlay: DeMusicConfigMainView, window: Seq<char>, idx: int)
    requires
        !overlay.windows.contains_key(window) || !(0 <= idx < overlay.windows[window].len()),
    ensures
        overlay.into_main_config().get_for_window(window, idx)
            == overlay.into_main_config().default_conf(),
{
}

} // verus!
