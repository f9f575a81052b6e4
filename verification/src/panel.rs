//! What the applet shows in the panel: the main button and, when enabled,
//! the previous and next buttons beside it.
use vstd::prelude::*;
use crate::config::{ConfigManager, ConfigModel};
use crate::icon::{icon_name, AppIcon};
use crate::status::PlaybackState;

verus! {

/// The settings, when a configuration could be loaded.
pub open spec fn configured(config_manager: Option<&ConfigManager>) -> Option<ConfigModel> {
    match config_manager {
        Some(config) => Some(config@),
        None => None,
    }
}

/// Where an icon is loaded from.
#[derive(Debug)]
pub enum IconSource {
    /// An image file the user configured.
    CustomPath(String),
    /// A symbolic icon of the desktop theme, by name.
    Named(&'static str),
}

/// Where an icon is loaded from, as mathematical values.
pub enum IconChoice {
    CustomPath(Seq<char>),
    Named(Seq<char>),
}

impl View for IconSource {
    type V = IconChoice;

    open spec fn view(&self) -> IconChoice {
        match self {
            IconSource::CustomPath(path) => IconChoice::CustomPath(path@),
            IconSource::Named(name) => IconChoice::Named(name@),
        }
    }
}

/// The custom path configured for `icon`, if any.
pub open spec fn custom_icon_path(config: Option<ConfigModel>, icon: AppIcon) -> Option<Seq<char>> {
    match config {
        Some(model) => model.custom_icon(icon),
        None => None,
    }
}

/// A configured, non-empty custom path is used; otherwise the themed icon.
pub open spec fn icon_choice(config: Option<ConfigModel>, icon: AppIcon) -> IconChoice {
    match custom_icon_path(config, icon) {
        Some(path) => if path.len() > 0 {
            IconChoice::CustomPath(path)
        } else {
            IconChoice::Named(icon_name(icon))
        },
        None => IconChoice::Named(icon_name(icon)),
    }
}

fn custom_icon(config: &ConfigManager, icon: &AppIcon) -> (path: Option<String>)
    ensures
        path.deep_view() == config@.custom_icon(*icon),
{
    match icon {
        AppIcon::Playing => config.get_custom_play_icon(),
        AppIcon::Paused => config.get_custom_pause_icon(),
        AppIcon::Next => config.get_custom_next_icon(),
        AppIcon::Previous => config.get_custom_previous_icon(),
    }
}

/// Where to load `icon` from: the user's custom image when one is set,
/// else the themed symbolic icon.
pub fn resolve_playback_icon(config_manager: Option<&ConfigManager>, icon: &AppIcon) -> (source:
    IconSource)
    ensures
        source@ == icon_choice(configured(config_manager), *icon),
{
    let custom_path: Option<String> = match config_manager {
        Some(config) => custom_icon(config, icon),
        None => None,
    };
    match custom_path {
        Some(path) => {
            if !path.as_str().is_empty() {
                IconSource::CustomPath(path)
            } else {
                IconSource::Named(icon.to_str())
            }
        },
        None => IconSource::Named(icon.to_str()),
    }
}

/// Whether some player in `states` is playing.
pub open spec fn any_playing(states: Seq<PlaybackState>) -> bool {
    exists|i: int| 0 <= i < states.len() && states[i] == PlaybackState::Playing
}

/// The main button offers to pause when something plays and to play otherwise;
/// with all players shown, any playing player counts, else only the selected one.
pub open spec fn main_button_icon(
    show_all_players: bool,
    all_states: Seq<PlaybackState>,
    state: PlaybackState,
) -> AppIcon {
    let playing = if show_all_players {
        any_playing(all_states)
    } else {
        state == PlaybackState::Playing
    };
    if playing {
        AppIcon::Paused
    } else {
        AppIcon::Playing
    }
}

/// Whether the applet is in multi-player mode.
pub open spec fn shows_all_players(config: Option<ConfigModel>) -> bool {
    match config {
        Some(model) => model.show_all_players,
        None => false,
    }
}

/// Whether the previous and next buttons are shown.
pub open spec fn shows_controls(config: Option<ConfigModel>) -> bool {
    match config {
        Some(model) => model.show_controls,
        None => false,
    }
}

fn any_player_playing(states: &Vec<PlaybackState>) -> (playing: bool)
    ensures
        playing == any_playing(states@),
{
    let n = states.len();
    for i in 0..n
        invariant
            n == states@.len(),
            forall|j: int| 0 <= j < i ==> states@[j] != PlaybackState::Playing,
    {
        if states[i] == PlaybackState::Playing {
            return true;
        }
    }
    false
}

/// The buttons in the panel.
#[derive(Debug)]
pub struct PanelView {
    pub main: IconSource,
    pub previous: Option<IconSource>,
    pub next: Option<IconSource>,
}

/// Decides the panel buttons from the settings, the states of all players
/// (`all_states`) and the state of the selected player (`state`).
pub fn view(
    config_manager: Option<&ConfigManager>,
    all_states: &Vec<PlaybackState>,
    state: PlaybackState,
) -> (panel: PanelView)
    ensures
        panel.main@ == icon_choice(
            configured(config_manager),
            main_button_icon(shows_all_players(configured(config_manager)), all_states@, state),
        ),
        panel.previous is Some == shows_controls(configured(config_manager)),
        panel.previous is Some <==> (config_manager is Some && config_manager->0@.show_controls),
        panel.next is Some <==> (config_manager is Some && config_manager->0@.show_controls),
        panel.next is Some == shows_controls(configured(config_manager)),
        panel.previous matches Some(b) ==> b@ == icon_choice(
            configured(config_manager),
            AppIcon::Previous,
        ),
        panel.next matches Some(b) ==> b@ == icon_choice(configured(config_manager), AppIcon::Next),
{
    let show_all_players = match config_manager {
        Some(config) => config.get_show_all_players(),
        None => false,
    };
    let show_controls = match config_manager {
        Some(config) => config.get_show_controls(),
        None => false,
    };
    let icon = if show_all_players {
        if any_player_playing(all_states) {
            AppIcon::Paused
        } else {
            AppIcon::Playing
        }
    } else {
        state.toggle_icon()
    };
    let main = resolve_playback_icon(config_manager, &icon);
    let previous = if show_controls {
        Some(resolve_playback_icon(config_manager, &AppIcon::Previous))
    } else {
        None
    };
    let next = if show_controls {
        Some(resolve_playback_icon(config_manager, &AppIcon::Next))
    } else {
        None
    };
    PanelView { main, previous, next }
}

} // verus!
