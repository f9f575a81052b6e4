//! What the settings tab of the popup window shows.
use vstd::prelude::*;
use crate::config::{ConfigManager, ConfigModel};
use crate::panel::{configured, shows_all_players};
use crate::status::DiscoveredPlayer;

verus! {

/// The identities of the discovered players, in order.
pub open spec fn identities(players: Seq<DiscoveredPlayer>) -> Seq<Seq<char>> {
    players.map_values(|p: DiscoveredPlayer| p.identity@)
}

/// The radio button that is checked: 0 is "None", `k + 1` is the k-th
/// discovered player. `selected_index` meets it exactly.
pub open spec fn is_selection_index(
    selected: Option<Seq<char>>,
    ids: Seq<Seq<char>>,
    index: Option<usize>,
) -> bool {
    match selected {
        None => index == Some(0usize),
        Some(name) => match index {
            Some(k) => 1 <= k <= ids.len() && ids[k - 1] == name && forall|j: int|
                0 <= j < k - 1 ==> ids[j] != name,
            None => !ids.contains(name),
        },
    }
}

/// Which radio button of the player selection is checked: "None" when no
/// player is selected, the first discovered player with the selected name
/// otherwise, and none at all when that player was not discovered.
pub fn selected_index(selected: &Option<String>, discovered: &Vec<DiscoveredPlayer>) -> (index:
    Option<usize>)
    ensures
        is_selection_index(selected.deep_view(), identities(discovered@), index),
{
    match selected {
        None => Some(0),
        Some(name) => {
            let n = discovered.len();
            let ghost ids = identities(discovered@);
            for i in 0..n
                invariant
                    n == discovered@.len(),
                    ids == identities(discovered@),
                    selected.deep_view() == Some(name@),
                    forall|j: int| 0 <= j < i ==> ids[j] != name@,
            {
                assert(ids[i as int] == discovered@[i as int].identity@);
                if discovered[i].identity == *name {
                    assert(ids[i as int] == discovered@[i as int].identity@);
                    return Some(i + 1);
                }
            }
            proof {
                assert forall|j: int| 0 <= j < ids.len() implies ids[j] != name@ by {}
            }
            None
        },
    }
}

/// The label of a player's radio button in the player selection.
pub open spec fn radio_label(player: DiscoveredPlayer) -> Seq<char> {
    if player.is_active {
        player.identity@ + " (♪ currently playing)"@
    } else {
        player.identity@ + ""@
    }
}

/// The label of a player in the multi-player listing.
pub open spec fn listing_label(player: DiscoveredPlayer) -> Seq<char> {
    if player.is_active {
        player.identity@ + " ♪"@
    } else {
        player.identity@ + ""@
    }
}

fn labeled(identity: &String, suffix: &str) -> (label: String)
    ensures
        label@ == identity@ + suffix@,
{
    let mut label = identity.clone();
    label.append(suffix);
    label
}

/// The labels of the radio buttons, one per discovered player.
pub fn radio_labels(discovered: &Vec<DiscoveredPlayer>) -> (labels: Vec<String>)
    ensures
        labels@.len() == discovered@.len(),
        forall|i: int| 0 <= i < labels@.len() ==> #[trigger] labels@[i]@ == radio_label(discovered@[i]),
{
    let n = discovered.len();
    let mut labels: Vec<String> = Vec::new();
    for i in 0..n
        invariant
            n == discovered@.len(),
            labels@.len() == i,
            forall|j: int| 0 <= j < i ==> #[trigger] labels@[j]@ == radio_label(discovered@[j]),
    {
        let player = &discovered[i];
        let suffix = if player.is_active { " (♪ currently playing)" } else { "" };
        labels.push(labeled(&player.identity, suffix));
    }
    labels
}

/// The labels of the multi-player listing, one per discovered player.
pub fn listing_labels(discovered: &Vec<DiscoveredPlayer>) -> (labels: Vec<String>)
    ensures
        labels@.len() == discovered@.len(),
        forall|i: int| 0 <= i < labels@.len() ==> #[trigger] labels@[i]@ == listing_label(discovered@[i]),
{
    let n = discovered.len();
    let mut labels: Vec<String> = Vec::new();
    for i in 0..n
        invariant
            n == discovered@.len(),
            labels@.len() == i,
            forall|j: int| 0 <= j < i ==> #[trigger] labels@[j]@ == listing_label(discovered@[j]),
    {
        let player = &discovered[i];
        let suffix = if player.is_active { " ♪" } else { "" };
        labels.push(labeled(&player.identity, suffix));
    }
    labels
}

/// The options of the info pane, shown while the pane is on.
#[derive(Debug)]
pub struct InfoPaneOptions {
    pub left: bool,
    pub width: u32,
}

/// The "Controls Customization" checkboxes.
#[derive(Debug)]
pub struct ControlsSection {
    pub show_controls: bool,
    pub show_info_pane: bool,
    pub info_pane: Option<InfoPaneOptions>,
}

/// The "Multi-Player Mode" checkboxes; the hiding of stopped players is
/// offered only in multi-player mode.
#[derive(Debug)]
pub struct MultiPlayerSection {
    pub show_all_players: bool,
    pub hide_inactive: Option<bool>,
}

/// The players part of the settings tab.
#[derive(Debug)]
pub enum PlayerList {
    /// Single-player mode: the radio buttons after "None", and which one is checked.
    Selection { selected_index: Option<usize>, labels: Vec<String> },
    /// Multi-player mode: the discovered players, listed.
    Listing { labels: Vec<String> },
}

/// What the settings tab shows. The checkbox sections are absent when no
/// configuration is loaded.
#[derive(Debug)]
pub struct SettingsView {
    pub controls: Option<ControlsSection>,
    pub multi_player: Option<MultiPlayerSection>,
    pub auto_detect: Option<bool>,
    pub players: PlayerList,
    /// Whether to add the "no players discovered yet" hint.
    pub no_players_found: bool,
}

/// The settings tab's sections, as they follow from the settings.
pub open spec fn sections_match(config: Option<ConfigModel>, view: SettingsView) -> bool {
    match config {
        None => view.controls is None && view.multi_player is None && view.auto_detect is None,
        Some(model) => {
            &&& view.controls matches Some(c) && c.show_controls == model.show_controls
                && c.show_info_pane == model.show_info_pane && (c.info_pane is Some
                == model.show_info_pane) && (c.info_pane matches Some(p) ==> p.left
                == model.info_pane_left && p.width == model.info_pane_width)
            &&& view.multi_player matches Some(m) && m.show_all_players == model.show_all_players
                && (m.hide_inactive is Some == model.show_all_players) && (m.hide_inactive matches Some(
                h,
            ) ==> h == model.hide_inactive_players)
            &&& view.auto_detect == Some(model.auto_detect_new_players)
        },
    }
}

/// The selected player's name, when a configuration is loaded.
pub open spec fn selected_player(config: Option<ConfigModel>) -> Option<Seq<char>> {
    match config {
        Some(model) => model.selected_player,
        None => None,
    }
}

/// The players part: in multi-player mode a listing, else the radio
/// buttons with the selected player checked.
pub open spec fn players_match(
    players: PlayerList,
    show_all_players: bool,
    selected: Option<Seq<char>>,
    discovered: Seq<DiscoveredPlayer>,
) -> bool {
    match players {
        PlayerList::Selection { selected_index, labels } => {
            &&& !show_all_players
            &&& is_selection_index(selected, identities(discovered), selected_index)
            &&& labels@.len() == discovered.len()
            &&& forall|i: int|
                0 <= i < labels@.len() ==> #[trigger] labels@[i]@ == radio_label(discovered[i])
        },
        PlayerList::Listing { labels } => {
            &&& show_all_players
            &&& labels@.len() == discovered.len()
            &&& forall|i: int|
                0 <= i < labels@.len() ==> #[trigger] labels@[i]@ == listing_label(discovered[i])
        },
    }
}

/// Decides the settings tab from the settings and the discovered players.
pub fn view_settings_tab(
    config_manager: Option<&ConfigManager>,
    discovered: &Vec<DiscoveredPlayer>,
) -> (view: SettingsView)
    ensures
        sections_match(configured(config_manager), view),
        view.no_players_found == (discovered@.len() == 0),
        players_match(
            view.players,
            shows_all_players(configured(config_manager)),
            selected_player(configured(config_manager)),
            discovered@,
        ),
{
    let (controls, multi_player, auto_detect) = match config_manager {
        Some(config) => {
            let show_info_pane = config.get_show_info_pane();
            let info_pane = if show_info_pane {
                Some(
                    InfoPaneOptions {
                        left: config.get_info_pane_left(),
                        width: config.get_info_pane_width(),
                    },
                )
            } else {
                None
            };
            let show_all = config.get_show_all_players();
            let hide_inactive = if show_all {
                Some(config.get_hide_inactive_players())
            } else {
                None
            };
            (
                Some(
                    ControlsSection {
                        show_controls: config.get_show_controls(),
                        show_info_pane,
                        info_pane,
                    },
                ),
                Some(MultiPlayerSection { show_all_players: show_all, hide_inactive }),
                Some(config.get_auto_detect_new_players()),
            )
        },
        None => (None, None, None),
    };
    let show_all_players = match config_manager {
        Some(config) => config.get_show_all_players(),
        None => false,
    };
    let players = if !show_all_players {
        let current_selected = match config_manager {
            Some(config) => config.get_selected_player(),
            None => None,
        };
        PlayerList::Selection {
            selected_index: selected_index(&current_selected, discovered),
            labels: radio_labels(discovered),
        }
    } else {
        PlayerList::Listing { labels: listing_labels(discovered) }
    };
    SettingsView {
        controls,
        multi_player,
        auto_detect,
        players,
        no_players_found: discovered.len() == 0,
    }
}

} // verus!
