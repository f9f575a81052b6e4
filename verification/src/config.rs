//! The applet's persisted settings and the manager that reads and changes them.
//! Storing the settings is left to the caller: every change here says whether
//! the stored copy has to be written again.
use vstd::prelude::*;
use crate::icon::AppIcon;
use crate::players::PlayerSet;

verus! {

/// What a configuration holds, as mathematical values.
pub struct ConfigModel {
    pub enabled_players: Set<Seq<char>>,
    pub auto_detect_new_players: bool,
    pub selected_player: Option<Seq<char>>,
    pub show_all_players: bool,
    pub hide_inactive_players: bool,
    pub custom_play_icon: Option<Seq<char>>,
    pub custom_pause_icon: Option<Seq<char>>,
    pub custom_next_icon: Option<Seq<char>>,
    pub custom_previous_icon: Option<Seq<char>>,
    pub show_controls: bool,
    pub show_info_pane: bool,
    /// `true` puts the info pane on the left, `false` on the right.
    pub info_pane_left: bool,
    pub info_pane_width: u32,
    pub album_size: u32,
}

/// The configuration a first start begins with.
pub open spec fn default_model() -> ConfigModel {
    ConfigModel {
        enabled_players: Set::empty(),
        auto_detect_new_players: true,
        selected_player: None,
        show_all_players: false,
        hide_inactive_players: false,
        custom_play_icon: None,
        custom_pause_icon: None,
        custom_next_icon: None,
        custom_previous_icon: None,
        show_controls: false,
        show_info_pane: false,
        info_pane_left: true,
        info_pane_width: 250,
        album_size: 70,
    }
}

impl ConfigModel {
    /// The custom icon path configured for `icon`, if any.
    pub open spec fn custom_icon(self, icon: AppIcon) -> Option<Seq<char>> {
        match icon {
            AppIcon::Playing => self.custom_play_icon,
            AppIcon::Paused => self.custom_pause_icon,
            AppIcon::Next => self.custom_next_icon,
            AppIcon::Previous => self.custom_previous_icon,
        }
    }

    /// The configuration after a newly seen player named `name` is reported:
    /// it is enabled when new players are detected automatically.
    pub open spec fn with_discovered(self, name: Seq<char>) -> ConfigModel {
        if self.auto_detect_new_players {
            ConfigModel { enabled_players: self.enabled_players.insert(name), ..self }
        } else {
            self
        }
    }

    /// The configuration after `change`.
    pub open spec fn apply(self, change: ConfigChange) -> ConfigModel {
        match change {
            ConfigChange::SelectPlayer(p) => ConfigModel { selected_player: p, ..self },
            ConfigChange::AutoDetect(b) => ConfigModel { auto_detect_new_players: b, ..self },
            ConfigChange::ShowAllPlayers(b) => ConfigModel { show_all_players: b, ..self },
            ConfigChange::HideInactive(b) => ConfigModel { hide_inactive_players: b, ..self },
            ConfigChange::ShowControls(b) => ConfigModel { show_controls: b, ..self },
            ConfigChange::ShowInfoPane(b) => ConfigModel { show_info_pane: b, ..self },
            ConfigChange::InfoPaneLeft(b) => ConfigModel { info_pane_left: b, ..self },
            ConfigChange::InfoPaneWidth(w) => ConfigModel { info_pane_width: w, ..self },
            ConfigChange::AlbumSize(n) => ConfigModel { album_size: n, ..self },
            ConfigChange::Discover(name) => self.with_discovered(name),
        }
    }

    /// The configuration after `changes`, applied in order.
    pub open spec fn apply_all(self, changes: Seq<ConfigChange>) -> ConfigModel
        decreases changes.len(),
    {
        if changes.len() == 0 {
            self
        } else {
            self.apply_all(changes.drop_last()).apply(changes.last())
        }
    }
}

/// A change a `ConfigManager` method makes to the settings.
pub enum ConfigChange {
    SelectPlayer(Option<Seq<char>>),
    AutoDetect(bool),
    ShowAllPlayers(bool),
    HideInactive(bool),
    ShowControls(bool),
    ShowInfoPane(bool),
    InfoPaneLeft(bool),
    InfoPaneWidth(u32),
    AlbumSize(u32),
    /// A newly seen player is reported.
    Discover(Seq<char>),
}

/// The applet's settings.
#[derive(Clone, Debug)]
pub struct AppConfig {
    pub enabled_players: PlayerSet,
    pub auto_detect_new_players: bool,
    pub selected_player: Option<String>,
    pub show_all_players: bool,
    pub hide_inactive_players: bool,
    pub custom_play_icon: Option<String>,
    pub custom_pause_icon: Option<String>,
    pub custom_next_icon: Option<String>,
    pub custom_previous_icon: Option<String>,
    pub show_controls: bool,
    pub show_info_pane: bool,
    /// `true` puts the info pane on the left, `false` on the right.
    pub info_pane_left: bool,
    pub info_pane_width: u32,
    pub album_size: u32,
}

impl View for AppConfig {
    type V = ConfigModel;

    open spec fn view(&self) -> ConfigModel {
        ConfigModel {
            enabled_players: self.enabled_players@,
            auto_detect_new_players: self.auto_detect_new_players,
            selected_player: self.selected_player.deep_view(),
            show_all_players: self.show_all_players,
            hide_inactive_players: self.hide_inactive_players,
            custom_play_icon: self.custom_play_icon.deep_view(),
            custom_pause_icon: self.custom_pause_icon.deep_view(),
            custom_next_icon: self.custom_next_icon.deep_view(),
            custom_previous_icon: self.custom_previous_icon.deep_view(),
            show_controls: self.show_controls,
            show_info_pane: self.show_info_pane,
            info_pane_left: self.info_pane_left,
            info_pane_width: self.info_pane_width,
            album_size: self.album_size,
        }
    }
}

impl Default for AppConfig {
    fn default() -> (config: Self)
        ensures
            config@ == default_model(),
    {
        AppConfig {
            enabled_players: PlayerSet::new(),
            auto_detect_new_players: true,
            selected_player: None,
            show_all_players: false,
            hide_inactive_players: false,
            custom_play_icon: None,
            custom_pause_icon: None,
            custom_next_icon: None,
            custom_previous_icon: None,
            show_controls: false,
            show_info_pane: false,
            info_pane_left: true,
            info_pane_width: 250,
            album_size: 70,
        }
    }
}

/// A copy of an optional string with the same contents.
fn copy_optional(value: &Option<String>) -> (copy: Option<String>)
    ensures
        copy.deep_view() == value.deep_view(),
{
    match value {
        Some(s) => Some(s.clone()),
        None => None,
    }
}

/// Holds the current settings and applies the changes the user makes.
pub struct ConfigManager {
    app_config: AppConfig,
}

impl View for ConfigManager {
    type V = ConfigModel;

    closed spec fn view(&self) -> ConfigModel {
        self.app_config@
    }
}

impl ConfigManager {
    /// Starts from the settings found in storage, or from the defaults when
    /// none could be read; the flag says that the defaults must be stored.
    pub fn new(stored: Option<AppConfig>) -> (started: (ConfigManager, bool))
        ensures
            match stored {
                Some(config) => started.0@ == config@ && !started.1,
                None => started.0@ == default_model() && started.1,
            },
    {
        match stored {
            Some(app_config) => (ConfigManager { app_config }, false),
            None => (ConfigManager { app_config: AppConfig::default() }, true),
        }
    }

    /// The settings as they are to be stored.
    pub fn app_config(&self) -> (config: &AppConfig)
        ensures
            config@ == self@,
    {
        &self.app_config
    }

    pub fn get_selected_player(&self) -> (player: Option<String>)
        ensures
            player.deep_view() == self@.selected_player,
    {
        copy_optional(&self.app_config.selected_player)
    }

    pub fn set_selected_player(&mut self, player: Option<String>)
        ensures
            final(self)@ == old(self)@.apply(ConfigChange::SelectPlayer(player.deep_view())),
    {
        self.app_config.selected_player = player;
    }

    pub fn get_auto_detect_new_players(&self) -> (auto_detect: bool)
        ensures
            auto_detect == self@.auto_detect_new_players,
    {
        self.app_config.auto_detect_new_players
    }

    pub fn set_auto_detect_new_players(&mut self, auto_detect: bool)
        ensures
            final(self)@ == old(self)@.apply(ConfigChange::AutoDetect(auto_detect)),
    {
        self.app_config.auto_detect_new_players = auto_detect;
    }

    /// Reports a newly seen player; it is enabled only when new players are
    /// detected automatically. Returns whether the settings must be stored
    /// again, which is whenever new players are detected automatically.
    pub fn add_discovered_player(&mut self, player_name: String) -> (must_store: bool)
        ensures
            must_store == old(self)@.auto_detect_new_players,
            final(self)@ == old(self)@.apply(ConfigChange::Discover(player_name@)),
    {
        if self.app_config.auto_detect_new_players {
            self.app_config.enabled_players.insert(player_name);
            true
        } else {
            false
        }
    }

    pub fn get_show_all_players(&self) -> (show_all: bool)
        ensures
            show_all == self@.show_all_players,
    {
        self.app_config.show_all_players
    }

    pub fn set_show_all_players(&mut self, show_all: bool)
        ensures
            final(self)@ == old(self)@.apply(ConfigChange::ShowAllPlayers(show_all)),
    {
        self.app_config.show_all_players = show_all;
    }

    pub fn get_hide_inactive_players(&self) -> (hide_inactive: bool)
        ensures
            hide_inactive == self@.hide_inactive_players,
    {
        self.app_config.hide_inactive_players
    }

    pub fn set_hide_inactive_players(&mut self, hide_inactive: bool)
        ensures
            final(self)@ == old(self)@.apply(ConfigChange::HideInactive(hide_inactive)),
    {
        self.app_config.hide_inactive_players = hide_inactive;
    }

    pub fn get_custom_play_icon(&self) -> (path: Option<String>)
        ensures
            path.deep_view() == self@.custom_play_icon,
    {
        copy_optional(&self.app_config.custom_play_icon)
    }

    pub fn get_custom_pause_icon(&self) -> (path: Option<String>)
        ensures
            path.deep_view() == self@.custom_pause_icon,
    {
        copy_optional(&self.app_config.custom_pause_icon)
    }

    pub fn get_custom_next_icon(&self) -> (path: Option<String>)
        ensures
            path.deep_view() == self@.custom_next_icon,
    {
        copy_optional(&self.app_config.custom_next_icon)
    }

    pub fn get_custom_previous_icon(&self) -> (path: Option<String>)
        ensures
            path.deep_view() == self@.custom_previous_icon,
    {
        copy_optional(&self.app_config.custom_previous_icon)
    }

    pub fn get_show_controls(&self) -> (show_controls: bool)
        ensures
            show_controls == self@.show_controls,
    {
        self.app_config.show_controls
    }

    pub fn set_show_controls(&mut self, show_buttons: bool)
        ensures
            final(self)@ == old(self)@.apply(ConfigChange::ShowControls(show_buttons)),
    {
        self.app_config.show_controls = show_buttons;
    }

    pub fn get_show_info_pane(&self) -> (show_info_pane: bool)
        ensures
            show_info_pane == self@.show_info_pane,
    {
        self.app_config.show_info_pane
    }

    pub fn set_show_info_pane(&mut self, show_info_pane: bool)
        ensures
            final(self)@ == old(self)@.apply(ConfigChange::ShowInfoPane(show_info_pane)),
    {
        self.app_config.show_info_pane = show_info_pane;
    }

    pub fn get_info_pane_left(&self) -> (left: bool)
        ensures
            left == self@.info_pane_left,
    {
        self.app_config.info_pane_left
    }

    pub fn set_info_pane_left(&mut self, info_pane_left: bool)
        ensures
            final(self)@ == old(self)@.apply(ConfigChange::InfoPaneLeft(info_pane_left)),
    {
        self.app_config.info_pane_left = info_pane_left;
    }

    pub fn get_info_pane_width(&self) -> (width: u32)
        ensures
            width == self@.info_pane_width,
    {
        self.app_config.info_pane_width
    }

    pub fn set_info_pane_width(&mut self, info_pane_width: u32)
        ensures
            final(self)@ == old(self)@.apply(ConfigChange::InfoPaneWidth(info_pane_width)),
    {
        self.app_config.info_pane_width = info_pane_width;
    }

    pub fn get_album_size(&self) -> (size: u32)
        ensures
            size == self@.album_size,
    {
        self.app_config.album_size
    }

    pub fn set_album_size(&mut self, size: u32)
        ensures
            final(self)@ == old(self)@.apply(ConfigChange::AlbumSize(size)),
    {
        self.app_config.album_size = size;
    }
}

} // verus!
