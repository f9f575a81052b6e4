//! Properties that hold across the library's operations.
use vstd::prelude::*;
use vstd::utf8::{
    decode_utf8, decode_utf8_encode_utf8, decode_utf8_split, encode_utf8, encode_utf8_decode_utf8,
    encode_utf8_valid_utf8, valid_utf8_split,
};
use crate::config::{ConfigChange, ConfigModel};
use crate::icon::AppIcon;
use crate::panel::{any_playing, icon_choice, main_button_icon, shows_all_players, shows_controls, IconChoice};
use crate::icon::icon_name;
use crate::popup::{
    can_cut, card_text, controls_tab, hides_inactive, is_listed, listed_players, AlbumCover, ControlsTab,
    CARD_TEXT_BYTES,
};
use crate::settings::{
    is_selection_index, listing_label, players_match, radio_label, sections_match, SettingsView,
};
use crate::config::default_model;
use crate::popup::status_mark;
use crate::status::DiscoveredPlayer;
use crate::status::{toggle_icon, PlaybackState};

verus! {

/// What a `ConfigManager` getter reads after a setter gives back what the
/// setter wrote, and the setters touch neither the enabled players nor the
/// custom icons.
pub proof fn read_gives_back_write(m: ConfigModel, change: ConfigChange)
    ensures
        match change {
            ConfigChange::SelectPlayer(p) => m.apply(change).selected_player == p,
            ConfigChange::AutoDetect(b) => m.apply(change).auto_detect_new_players == b,
            ConfigChange::ShowAllPlayers(b) => m.apply(change).show_all_players == b,
            ConfigChange::HideInactive(b) => m.apply(change).hide_inactive_players == b,
            ConfigChange::ShowControls(b) => m.apply(change).show_controls == b,
            ConfigChange::ShowInfoPane(b) => m.apply(change).show_info_pane == b,
            ConfigChange::InfoPaneLeft(b) => m.apply(change).info_pane_left == b,
            ConfigChange::InfoPaneWidth(w) => m.apply(change).info_pane_width == w,
            ConfigChange::AlbumSize(n) => m.apply(change).album_size == n,
            ConfigChange::Discover(name) => m.apply(change).enabled_players.contains(name) <==> (
            m.auto_detect_new_players || m.enabled_players.contains(name)),
        },
        !(change is Discover) ==> m.apply(change).enabled_players == m.enabled_players,
{
}

/// Over any sequence of `ConfigManager` changes the enabled players only grow
/// and the custom icons stay as they were loaded.
pub proof fn changes_keep_players_and_icons(m: ConfigModel, changes: Seq<ConfigChange>)
    ensures
        m.enabled_players.subset_of(m.apply_all(changes).enabled_players),
        forall|icon: AppIcon| #[trigger] m.apply_all(changes).custom_icon(icon) == m.custom_icon(icon),
    decreases changes.len(),
{
    if changes.len() > 0 {
        changes_keep_players_and_icons(m, changes.drop_last());
        let mid = m.apply_all(changes.drop_last());
        assert forall|icon: AppIcon|
            #[trigger] m.apply_all(changes).custom_icon(icon) == m.custom_icon(icon) by {
            assert(mid.apply(changes.last()).custom_icon(icon) == mid.custom_icon(icon));
            assert(mid.custom_icon(icon) == m.custom_icon(icon));
        }
    }
}

/// Reporting the same player twice changes the settings no more than
/// reporting it once.
pub proof fn discovery_is_idempotent(m: ConfigModel, name: Seq<char>)
    ensures
        m.with_discovered(name).with_discovered(name) == m.with_discovered(name),
{
    if m.auto_detect_new_players {
        assert(m.enabled_players.insert(name).insert(name) =~= m.enabled_players.insert(name));
    }
}

/// Discovery never disables a player and touches nothing but the enabled
/// players; the reported player ends up enabled exactly when new players are
/// detected automatically or it already was enabled.
pub proof fn discovery_only_adds(m: ConfigModel, name: Seq<char>)
    ensures
        m.enabled_players.subset_of(m.with_discovered(name).enabled_players),
        m.with_discovered(name).enabled_players.contains(name) <==> (m.auto_detect_new_players
            || m.enabled_players.contains(name)),
        (ConfigModel { enabled_players: m.enabled_players, ..m.with_discovered(name) }) == m,
{
}

/// In single-player mode the panel button, the controls tab and the player
/// cards offer the same play/pause icon for a state; in multi-player mode the
/// panel offers to pause exactly when some player's card does.
pub proof fn play_pause_icons_agree(all_states: Seq<PlaybackState>, state: PlaybackState)
    ensures
        main_button_icon(false, all_states, state) == toggle_icon(state),
        (main_button_icon(true, all_states, state) == AppIcon::Paused) <==> exists|i: int|
            0 <= i < all_states.len() && #[trigger] toggle_icon(all_states[i]) == AppIcon::Paused,
{
    if main_button_icon(true, all_states, state) == AppIcon::Paused {
        let i = choose|i: int| 0 <= i < all_states.len() && all_states[i] == PlaybackState::Playing;
        assert(toggle_icon(all_states[i]) == AppIcon::Paused);
    }
}

/// The player list holds each position at most once, in increasing order,
/// and holds a position exactly when that player is listed.
pub proof fn listed_players_are_exact(states: Seq<PlaybackState>, hide_inactive: bool)
    ensures
        forall|a: int, b: int|
            0 <= a < b < listed_players(states, hide_inactive).len() ==> #[trigger] listed_players(
                states,
                hide_inactive,
            )[a] < #[trigger] listed_players(states, hide_inactive)[b],
        forall|k: int|
            #![trigger listed_players(states, hide_inactive).contains(k)]
            #![trigger states[k]]
            listed_players(states, hide_inactive).contains(k) <==> (0 <= k < states.len()
                && is_listed(states[k], hide_inactive)),
    decreases states.len(),
{
    let shown = listed_players(states, hide_inactive);
    if states.len() > 0 {
        let last = states.len() - 1;
        let before = states.drop_last();
        listed_players_are_exact(before, hide_inactive);
        let prev = listed_players(before, hide_inactive);
        assert forall|k: int|
            shown.contains(k) <==> (0 <= k < states.len() && is_listed(states[k], hide_inactive)) by {
            if 0 <= k < last {
                assert(before[k] == states[k]);
            }
            if prev.contains(k) {
                let j = choose|j: int| 0 <= j < prev.len() && prev[j] == k;
                assert(shown[j] == k);
            }
            if shown.contains(k) && k != last {
                let j = choose|j: int| 0 <= j < shown.len() && shown[j] == k;
                assert(prev[j] == k);
                assert(prev.contains(k));
            }
            if k == last && is_listed(states[k], hide_inactive) {
                assert(shown[prev.len() as int] == k);
            }
            if shown.contains(k) && k == last && !is_listed(states[k], hide_inactive) {
                assert(prev.contains(k));
            }
        }
        assert forall|a: int, b: int|
            0 <= a < b < shown.len() implies #[trigger] shown[a] < #[trigger] shown[b] by {
            if b == prev.len() {
                assert(prev[a] == shown[a]);
                assert(prev.contains(shown[a]));
            } else {
                assert(prev[a] == shown[a] && prev[b] == shown[b]);
            }
        }
    }
}

/// While stopped players are hidden, a stopped player added at `p` changes
/// nothing of which players are listed: the same players, whose positions
/// after `p` move up by one.
pub proof fn hidden_stopped_player_changes_nothing(states: Seq<PlaybackState>, p: int)
    requires
        0 <= p <= states.len(),
    ensures
        listed_players(states.insert(p, PlaybackState::Stopped), true) == listed_players(
            states,
            true,
        ).map_values(|k: int| if k < p { k } else { k + 1 }),
    decreases states.len(),
{
    let t = states.insert(p, PlaybackState::Stopped);
    let shift = |k: int| if k < p { k } else { k + 1 };
    listed_players_are_exact(states, true);
    let old_list = listed_players(states, true);
    if p == states.len() {
        assert(t.drop_last() =~= states);
        assert forall|j: int| 0 <= j < old_list.len() implies old_list[j] < p by {
            assert(old_list.contains(old_list[j]));
        }
        assert(old_list.map_values(shift) =~= old_list);
    } else {
        let before = states.drop_last();
        assert(t.drop_last() =~= before.insert(p, PlaybackState::Stopped));
        assert(t.last() == states.last());
        hidden_stopped_player_changes_nothing(before, p);
        let prev = listed_players(before, true);
        if is_listed(states.last(), true) {
            assert(old_list =~= prev.push(states.len() - 1));
            assert(listed_players(t, true) =~= prev.map_values(shift).push(t.len() - 1));
            assert(old_list.map_values(shift) =~= prev.map_values(shift).push(states.len() as int));
        } else {
            assert(old_list == prev);
        }
    }
}

/// With inactive players shown, every player is listed, in order.
pub proof fn all_players_listed_unless_hidden(states: Seq<PlaybackState>)
    ensures
        listed_players(states, false) == Seq::new(states.len(), |i: int| i),
    decreases states.len(),
{
    if states.len() > 0 {
        all_players_listed_unless_hidden(states.drop_last());
        assert(listed_players(states, false) =~= Seq::new(states.len(), |i: int| i));
    }
}

/// At most one radio button meets the selection rule, so the checked button
/// is determined by the selected name and the discovered players.
pub proof fn selection_index_is_unique(
    selected: Option<Seq<char>>,
    ids: Seq<Seq<char>>,
    a: Option<usize>,
    b: Option<usize>,
)
    requires
        is_selection_index(selected, ids, a),
        is_selection_index(selected, ids, b),
    ensures
        a == b,
{
    if let Some(name) = selected {
        if let (Some(x), Some(y)) = (a, b) {
            if x < y {
                assert(ids[x - 1] == name);
            } else if y < x {
                assert(ids[y - 1] == name);
            }
        } else if let Some(x) = a {
            assert(ids[x - 1] == name);
        } else if let Some(y) = b {
            assert(ids[y - 1] == name);
        }
    }
}

/// A card shows a text unchanged, or a prefix of it followed by "...".
pub proof fn card_text_starts_with_the_text(text: Seq<char>)
    requires
        can_cut(text),
    ensures
        card_text(text) == text || exists|kept: Seq<char>|
            kept.len() < text.len() && text.take(kept.len() as int) == kept && card_text(text)
                == kept + "..."@,
{
    let bytes = encode_utf8(text);
    if bytes.len() > CARD_TEXT_BYTES {
        let cut = CARD_TEXT_BYTES as int;
        encode_utf8_valid_utf8(text);
        encode_utf8_decode_utf8(text);
        decode_utf8_split(bytes, cut);
        let kept = decode_utf8(bytes.subrange(0, cut));
        let rest = decode_utf8(bytes.subrange(cut, bytes.len() as int));
        assert(text == kept + rest);
        assert(text.take(kept.len() as int) =~= kept);
        assert(rest.len() > 0) by {
            let tail = bytes.subrange(cut, bytes.len() as int);
            valid_utf8_split(bytes, cut);
            decode_utf8_encode_utf8(tail);
            if rest.len() == 0 {
                assert(rest =~= Seq::<char>::empty());
                assert(encode_utf8(rest) =~= Seq::<u8>::empty());
            }
        }
    }
}

/// A card cuts every text whose UTF-8 form is longer than 25 bytes, however
/// long: it shows the characters of the first 25 bytes and then "...".
/// Texts of at most 25 bytes are shown as they are.
pub proof fn card_cuts_every_long_text(text: Seq<char>)
    ensures
        encode_utf8(text).len() > 25 ==> card_text(text) == decode_utf8(
            encode_utf8(text).subrange(0, 25),
        ) + "..."@,
        encode_utf8(text).len() <= 25 ==> card_text(text) == text,
{
}

/// Whether stopped players are left out of the multi-player list follows the
/// "hide stopped players" setting alone: with it off every player is listed
/// in order, with it on exactly the players that are not stopped, whatever
/// the other settings; without a configuration nothing is hidden.
pub proof fn hiding_follows_its_own_setting(m: ConfigModel, states: Seq<PlaybackState>)
    ensures
        !m.hide_inactive_players ==> listed_players(states, hides_inactive(Some(m))) == Seq::new(
            states.len(),
            |i: int| i,
        ),
        listed_players(states, hides_inactive(None)) == Seq::new(states.len(), |i: int| i),
        m.hide_inactive_players ==> forall|k: int|
            #![trigger listed_players(states, hides_inactive(Some(m))).contains(k)]
            listed_players(states, hides_inactive(Some(m))).contains(k) <==> (0 <= k
                < states.len() && states[k] != PlaybackState::Stopped),
{
    all_players_listed_unless_hidden(states);
    listed_players_are_exact(states, true);
}

/// The previous and next buttons follow the "show controls" setting alone,
/// and there are none without a configuration.
pub proof fn panel_buttons_follow_their_own_setting(m: ConfigModel)
    ensures
        shows_controls(Some(m)) == m.show_controls,
        !shows_controls(None),
        shows_all_players(Some(m)) == m.show_all_players,
        !shows_all_players(None),
{
}

/// Each button loads the custom image configured for that very icon when it
/// is set and not empty, and the themed icon of its own name otherwise.
pub proof fn each_icon_uses_its_own_setting(m: ConfigModel)
    ensures
        icon_choice(Some(m), AppIcon::Playing) == (match m.custom_play_icon {
            Some(p) => if p.len() > 0 { IconChoice::CustomPath(p) } else {
                IconChoice::Named("media-playback-start-symbolic"@)
            },
            None => IconChoice::Named("media-playback-start-symbolic"@),
        }),
        icon_choice(Some(m), AppIcon::Paused) == (match m.custom_pause_icon {
            Some(p) => if p.len() > 0 { IconChoice::CustomPath(p) } else {
                IconChoice::Named("media-playback-pause-symbolic"@)
            },
            None => IconChoice::Named("media-playback-pause-symbolic"@),
        }),
        icon_choice(Some(m), AppIcon::Next) == (match m.custom_next_icon {
            Some(p) => if p.len() > 0 { IconChoice::CustomPath(p) } else {
                IconChoice::Named("media-skip-forward-symbolic"@)
            },
            None => IconChoice::Named("media-skip-forward-symbolic"@),
        }),
        icon_choice(Some(m), AppIcon::Previous) == (match m.custom_previous_icon {
            Some(p) => if p.len() > 0 { IconChoice::CustomPath(p) } else {
                IconChoice::Named("media-skip-backward-symbolic"@)
            },
            None => IconChoice::Named("media-skip-backward-symbolic"@),
        }),
        forall|icon: AppIcon| #[trigger] icon_choice(None, icon) == IconChoice::Named(icon_name(icon)),
{
}

/// In multi-player mode the controls tab is the list of all players, whatever
/// player is selected; otherwise it is the hint when no player is selected (or
/// no configuration is loaded), and else the selected player's track.
pub proof fn controls_tab_follows_the_mode(
    m: ConfigModel,
    has_album_art: bool,
    has_art_url: bool,
    state: PlaybackState,
)
    ensures
        m.show_all_players ==> controls_tab(Some(m), has_album_art, has_art_url, state)
            == ControlsTab::AllPlayers,
        !m.show_all_players && m.selected_player is None ==> controls_tab(
            Some(m),
            has_album_art,
            has_art_url,
            state,
        ) == ControlsTab::NoPlayerSelected,
        controls_tab(None, has_album_art, has_art_url, state) == ControlsTab::NoPlayerSelected,
        !m.show_all_players && m.selected_player is Some ==> controls_tab(
            Some(m),
            has_album_art,
            has_art_url,
            state,
        ) is NowPlaying,
        controls_tab(Some(m), true, has_art_url, state) matches ControlsTab::NowPlaying {
            cover,
            ..
        } ==> cover == AlbumCover::Art,
{
}

/// The play/pause button offers to pause a playing player and to play any
/// other.
pub proof fn toggle_offers_the_other_action(state: PlaybackState)
    ensures
        toggle_icon(PlaybackState::Playing) == AppIcon::Paused,
        toggle_icon(PlaybackState::Paused) == AppIcon::Playing,
        toggle_icon(PlaybackState::Stopped) == AppIcon::Playing,
{
}

/// The checked radio button is "None" exactly when no player is selected; for
/// a selected player it is the button of its first discovered match, and no
/// button is checked when it was not discovered.
pub proof fn checked_button_is_first_match(
    selected: Option<Seq<char>>,
    ids: Seq<Seq<char>>,
    index: Option<usize>,
)
    requires
        is_selection_index(selected, ids, index),
    ensures
        (index == Some(0usize)) <==> selected is None,
        selected matches Some(name) ==> (ids.contains(name) <==> index is Some),
        selected matches Some(name) ==> (index matches Some(k) ==> k >= 1 && ids[k - 1] == name
            && !ids.take(k - 1).contains(name)),
{
    if let Some(name) = selected {
        if let Some(k) = index {
            assert(ids.contains(name)) by {
                assert(ids[k - 1] == name);
            }
            assert forall|j: int| 0 <= j < k - 1 implies #[trigger] ids.take(k - 1)[j] != name by {
                assert(ids.take(k - 1)[j] == ids[j]);
            }
            assert(!ids.take(k - 1).contains(name));
        }
    }
}

/// A playing player is marked in the player selection and in the listing;
/// any other shows its name alone. The cards mark each state with its symbol.
pub proof fn labels_mark_playing_players(player: DiscoveredPlayer, state: PlaybackState)
    ensures
        player.is_active ==> radio_label(player) == player.identity@ + " (♪ currently playing)"@,
        player.is_active ==> listing_label(player) == player.identity@ + " ♪"@,
        !player.is_active ==> radio_label(player) == player.identity@,
        !player.is_active ==> listing_label(player) == player.identity@,
        status_mark(PlaybackState::Playing) == "▶"@,
        status_mark(PlaybackState::Paused) == "⏸"@,
        status_mark(PlaybackState::Stopped) == "⏹"@,
{
    reveal_strlit("");
    assert(player.identity@ + ""@ =~= player.identity@);
}

/// The settings tab shows each checkbox with the setting's current value; the
/// info pane's side and width only while the pane is shown, the hiding of
/// stopped players only in multi-player mode; without a configuration it
/// shows no checkbox. The player part is a listing exactly in multi-player
/// mode.
pub proof fn settings_tab_follows_the_settings(
    m: ConfigModel,
    view: SettingsView,
    no_config: SettingsView,
    show_all: bool,
    selected: Option<Seq<char>>,
    discovered: Seq<DiscoveredPlayer>,
)
    requires
        sections_match(Some(m), view),
        sections_match(None, no_config),
        players_match(view.players, show_all, selected, discovered),
    ensures
        view.controls is Some && view.multi_player is Some,
        view.controls->0.show_controls == m.show_controls,
        view.controls->0.show_info_pane == m.show_info_pane,
        (view.controls->0.info_pane is Some) == m.show_info_pane,
        m.show_info_pane ==> view.controls->0.info_pane->0.left == m.info_pane_left
            && view.controls->0.info_pane->0.width == m.info_pane_width,
        view.multi_player->0.show_all_players == m.show_all_players,
        (view.multi_player->0.hide_inactive is Some) == m.show_all_players,
        m.show_all_players ==> view.multi_player->0.hide_inactive == Some(m.hide_inactive_players),
        view.auto_detect == Some(m.auto_detect_new_players),
        no_config.controls is None && no_config.multi_player is None && no_config.auto_detect is None,
        (view.players is Listing) == show_all,
{
}

/// A first start enables automatic detection, no player, no custom icon and
/// no optional pane; the info pane goes left, 250 wide, covers are 70.
pub proof fn fresh_start_settings()
    ensures
        default_model().enabled_players == Set::<Seq<char>>::empty(),
        default_model().auto_detect_new_players,
        default_model().selected_player is None,
        !default_model().show_all_players,
        !default_model().hide_inactive_players,
        forall|icon: AppIcon| (#[trigger] default_model().custom_icon(icon)) is None,
        !default_model().show_controls,
        !default_model().show_info_pane,
        default_model().info_pane_left,
        default_model().info_pane_width == 250,
        default_model().album_size == 70,
{
}

} // verus!
