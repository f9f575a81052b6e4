//! What the popup window shows: its tab bar, the controls tab, the list of
//! all players and the card of each player.
use vstd::prelude::*;
use vstd::utf8::{decode_utf8, encode_utf8, encode_utf8_decode_utf8, is_char_boundary};
use crate::config::ConfigManager;
use crate::icon::AppIcon;
use crate::panel::{configured, shows_all_players};
use crate::status::{toggle_icon, PlaybackState};

verus! {

/// The two tabs of the popup window.
#[derive(Clone, Copy, Debug, PartialEq, Eq, Structural)]
pub enum PopupTab {
    Controls,
    Settings,
}

/// The labels of the tab buttons, where a filled dot marks the active tab,
/// and the tab whose content fills the window below them.
#[derive(Debug)]
pub struct TabBar {
    pub controls_label: &'static str,
    pub settings_label: &'static str,
    pub content: PopupTab,
}

/// Labels the tab buttons for the active tab and shows that tab's content.
pub fn view_window(active_tab: PopupTab) -> (tabs: TabBar)
    ensures
        tabs.controls_label@ == (if active_tab == PopupTab::Controls {
            "● Controls"@
        } else {
            "○ Controls"@
        }),
        tabs.settings_label@ == (if active_tab == PopupTab::Settings {
            "● Settings"@
        } else {
            "○ Settings"@
        }),
        tabs.content == active_tab,
{
    let controls_label = if active_tab == PopupTab::Controls {
        "● Controls"
    } else {
        "○ Controls"
    };
    let settings_label = if active_tab == PopupTab::Settings {
        "● Settings"
    } else {
        "○ Settings"
    };
    let content = match active_tab {
        PopupTab::Controls => PopupTab::Controls,
        PopupTab::Settings => PopupTab::Settings,
    };
    TabBar { controls_label, settings_label, content }
}

/// What stands where the album cover goes.
#[derive(Clone, Copy, Debug, PartialEq, Eq, Structural)]
pub enum AlbumCover {
    /// The downloaded cover image.
    Art,
    /// The cover is announced but not downloaded yet.
    Loading,
    /// The player announces no cover.
    Placeholder,
}

/// What the controls tab shows.
#[derive(Clone, Copy, Debug, PartialEq, Eq, Structural)]
pub enum ControlsTab {
    /// The list of all players, in multi-player mode.
    AllPlayers,
    /// A hint to pick a player in the settings tab.
    NoPlayerSelected,
    /// The selected player's track, with its cover and the play/pause button.
    NowPlaying { cover: AlbumCover, toggle: AppIcon },
}

/// What the controls tab shows for the given settings and selected player.
pub open spec fn controls_tab(
    config: Option<crate::config::ConfigModel>,
    has_album_art: bool,
    has_art_url: bool,
    state: PlaybackState,
) -> ControlsTab {
    if shows_all_players(config) {
        ControlsTab::AllPlayers
    } else if !(config matches Some(model) && model.selected_player is Some) {
        ControlsTab::NoPlayerSelected
    } else {
        ControlsTab::NowPlaying {
            cover: if has_album_art {
                AlbumCover::Art
            } else if has_art_url {
                AlbumCover::Loading
            } else {
                AlbumCover::Placeholder
            },
            toggle: toggle_icon(state),
        }
    }
}

/// Decides the controls tab from the settings, whether a cover image is at
/// hand, whether the player announces one, and the selected player's state.
pub fn view_controls_tab(
    config_manager: Option<&ConfigManager>,
    has_album_art: bool,
    has_art_url: bool,
    state: PlaybackState,
) -> (tab: ControlsTab)
    ensures
        tab == controls_tab(configured(config_manager), has_album_art, has_art_url, state),
        config_manager is Some && config_manager->0@.show_all_players ==> tab
            == ControlsTab::AllPlayers,
{
    let show_all_players = match config_manager {
        Some(config) => config.get_show_all_players(),
        None => false,
    };
    if show_all_players {
        return ControlsTab::AllPlayers;
    }
    let no_player_selected = match config_manager {
        Some(config) => config.get_selected_player().is_none(),
        None => true,
    };
    if no_player_selected {
        return ControlsTab::NoPlayerSelected;
    }
    let cover = if has_album_art {
        AlbumCover::Art
    } else if has_art_url {
        AlbumCover::Loading
    } else {
        AlbumCover::Placeholder
    };
    ControlsTab::NowPlaying { cover, toggle: state.toggle_icon() }
}

/// Whether a player in `state` is listed; stopped players are left out when
/// inactive players are hidden.
pub open spec fn is_listed(state: PlaybackState, hide_inactive: bool) -> bool {
    !hide_inactive || state != PlaybackState::Stopped
}

/// The positions, in order, of the players that are listed.
pub open spec fn listed_players(states: Seq<PlaybackState>, hide_inactive: bool) -> Seq<int>
    decreases states.len(),
{
    if states.len() == 0 {
        Seq::empty()
    } else {
        let before = listed_players(states.drop_last(), hide_inactive);
        if is_listed(states.last(), hide_inactive) {
            before.push(states.len() - 1)
        } else {
            before
        }
    }
}

/// Whether inactive players are hidden; off when no configuration is loaded.
pub open spec fn hides_inactive(config: Option<crate::config::ConfigModel>) -> bool {
    match config {
        Some(model) => model.hide_inactive_players,
        None => false,
    }
}

/// The positions in `states` of the players the multi-player list shows.
/// An empty result stands for the "no media playing" hint.
pub fn view_all_players(config_manager: Option<&ConfigManager>, states: &Vec<PlaybackState>) -> (shown:
    Vec<usize>)
    ensures
        shown@.map_values(|i: usize| i as int) == listed_players(
            states@,
            hides_inactive(configured(config_manager)),
        ),
        config_manager is None || !config_manager->0@.hide_inactive_players ==> shown@.map_values(
            |i: usize| i as int,
        ) == Seq::new(states@.len(), |i: int| i),
{
    let hide_inactive = match config_manager {
        Some(config) => config.get_hide_inactive_players(),
        None => false,
    };
    let ghost hide = hides_inactive(configured(config_manager));
    let mut shown: Vec<usize> = Vec::new();
    let n = states.len();
    for i in 0..n
        invariant
            n == states@.len(),
            hide_inactive == hide,
            shown@.map_values(|k: usize| k as int) == listed_players(states@.take(i as int), hide),
    {
        proof {
            assert(states@.take(i + 1).drop_last() =~= states@.take(i as int));
        }
        let ghost prev = shown@;
        if !hide_inactive || states[i] != PlaybackState::Stopped {
            shown.push(i);
            proof {
                assert(shown@ =~= prev.push(i));
                assert(shown@.map_values(|k: usize| k as int) =~= prev.map_values(
                    |k: usize| k as int,
                ).push(i as int));
            }
        }
    }
    proof {
        assert(states@.take(n as int) =~= states@);
        crate::laws::all_players_listed_unless_hidden(states@);
    }
    shown
}

/// How many bytes of a title or artist a player card shows before cutting.
pub const CARD_TEXT_BYTES: usize = 25;

/// The text a player card shows: unchanged when its UTF-8 form fits in the
/// limit, else the characters of its first bytes followed by "...".
pub open spec fn card_text(text: Seq<char>) -> Seq<char> {
    let bytes = encode_utf8(text);
    if bytes.len() > CARD_TEXT_BYTES {
        decode_utf8(bytes.subrange(0, CARD_TEXT_BYTES as int)) + "..."@
    } else {
        text
    }
}

/// Whether `text` can be cut after the byte limit: short enough not to be
/// cut, or a character ends exactly at the limit.
pub open spec fn can_cut(text: Seq<char>) -> bool {
    encode_utf8(text).len() > CARD_TEXT_BYTES ==> is_char_boundary(
        encode_utf8(text),
        CARD_TEXT_BYTES as int,
    )
}

/// Shortens a title or artist for a player card.
pub fn shorten_card_text(text: &str) -> (shown: String)
    requires
        can_cut(text@),
    ensures
        shown@ == card_text(text@),
        encode_utf8(text@).len() > 25 ==> shown@ == decode_utf8(encode_utf8(text@).subrange(0, 25))
            + "..."@,
        encode_utf8(text@).len() <= 25 ==> shown@ == text@,
{
    if text.as_bytes().len() > CARD_TEXT_BYTES {
        let (head, _tail) = text.split_at(CARD_TEXT_BYTES);
        let mut shown = head.to_owned();
        shown.append("...");
        proof {
            encode_utf8_decode_utf8(head@);
        }
        shown
    } else {
        text.to_owned()
    }
}

/// The mark before a player's name on its card.
pub open spec fn status_mark(state: PlaybackState) -> Seq<char> {
    match state {
        PlaybackState::Playing => "▶"@,
        PlaybackState::Paused => "⏸"@,
        PlaybackState::Stopped => "⏹"@,
    }
}

/// What the card of one player shows.
#[derive(Debug)]
pub struct PlayerCard {
    pub title: String,
    pub artist: String,
    pub status_mark: &'static str,
    pub toggle: AppIcon,
    pub show_volume: bool,
}

/// The compact card of one player in the multi-player list.
pub fn view_player_card(
    title: &str,
    artist: &str,
    state: PlaybackState,
    can_control_volume: bool,
) -> (card: PlayerCard)
    requires
        can_cut(title@),
        can_cut(artist@),
    ensures
        card.title@ == card_text(title@),
        card.artist@ == card_text(artist@),
        card.status_mark@ == status_mark(state),
        card.toggle == toggle_icon(state),
        card.show_volume == can_control_volume,
{
    let title = shorten_card_text(title);
    let artist = shorten_card_text(artist);
    let status_mark = match state {
        PlaybackState::Playing => "▶",
        PlaybackState::Paused => "⏸",
        PlaybackState::Stopped => "⏹",
    };
    PlayerCard { title, artist, status_mark, toggle: state.toggle_icon(), show_volume: can_control_volume }
}

} // verus!
