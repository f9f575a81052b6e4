use music_player::config::{AppConfig, ConfigManager};
use music_player::icon::AppIcon;
use music_player::panel::{resolve_playback_icon, view, IconSource};
use music_player::popup::{
    shorten_card_text, view_all_players, view_controls_tab, view_player_card, view_window,
    AlbumCover, ControlsTab, PopupTab,
};
use music_player::settings::{selected_index, view_settings_tab, PlayerList};
use music_player::status::{DiscoveredPlayer, PlaybackState};

fn manager_with(edit: impl Fn(&mut AppConfig)) -> ConfigManager {
    let mut config = AppConfig::default();
    edit(&mut config);
    ConfigManager::new(Some(config)).0
}

fn named(source: &IconSource) -> &'static str {
    match source {
        IconSource::Named(name) => name,
        IconSource::CustomPath(path) => panic!("custom path {path}"),
    }
}

fn player(identity: &str, is_active: bool) -> DiscoveredPlayer {
    DiscoveredPlayer { identity: identity.to_string(), is_active }
}

#[test]
fn icon_names() {
    assert_eq!(AppIcon::Playing.to_str(), "media-playback-start-symbolic");
    assert_eq!(AppIcon::Paused.to_str(), "media-playback-pause-symbolic");
    assert_eq!(AppIcon::Next.to_str(), "media-skip-forward-symbolic");
    assert_eq!(AppIcon::Previous.to_str(), "media-skip-backward-symbolic");
}

#[test]
fn icon_names_differ() {
    let all = [AppIcon::Playing, AppIcon::Paused, AppIcon::Next, AppIcon::Previous];
    for a in all {
        for b in all {
            assert_eq!(a == b, a.to_str() == b.to_str());
        }
    }
}

#[test]
fn themed_icon_without_config() {
    let source = resolve_playback_icon(None, &AppIcon::Next);
    assert_eq!(named(&source), "media-skip-forward-symbolic");
}

#[test]
fn custom_icon_path_wins() {
    let m = manager_with(|c| c.custom_pause_icon = Some("/home/u/pause.png".to_string()));
    match resolve_playback_icon(Some(&m), &AppIcon::Paused) {
        IconSource::CustomPath(path) => assert_eq!(path, "/home/u/pause.png"),
        other => panic!("unexpected {other:?}"),
    }
    assert_eq!(named(&resolve_playback_icon(Some(&m), &AppIcon::Playing)), "media-playback-start-symbolic");
}

#[test]
fn empty_custom_icon_path_is_ignored() {
    let m = manager_with(|c| c.custom_previous_icon = Some(String::new()));
    assert_eq!(named(&resolve_playback_icon(Some(&m), &AppIcon::Previous)), "media-skip-backward-symbolic");
}

#[test]
fn panel_single_player_playing_offers_pause() {
    let panel = view(None, &vec![], PlaybackState::Playing);
    assert_eq!(named(&panel.main), "media-playback-pause-symbolic");
    assert!(panel.previous.is_none());
    assert!(panel.next.is_none());
    let panel = view(None, &vec![PlaybackState::Playing], PlaybackState::Stopped);
    assert_eq!(named(&panel.main), "media-playback-start-symbolic");
    let panel = view(None, &vec![], PlaybackState::Paused);
    assert_eq!(named(&panel.main), "media-playback-start-symbolic");
}

#[test]
fn panel_multi_player_looks_at_every_player() {
    let m = manager_with(|c| c.show_all_players = true);
    let states = vec![PlaybackState::Stopped, PlaybackState::Playing];
    let panel = view(Some(&m), &states, PlaybackState::Stopped);
    assert_eq!(named(&panel.main), "media-playback-pause-symbolic");
    let states = vec![PlaybackState::Stopped, PlaybackState::Paused];
    let panel = view(Some(&m), &states, PlaybackState::Playing);
    assert_eq!(named(&panel.main), "media-playback-start-symbolic");
}

#[test]
fn panel_shows_controls_when_enabled() {
    let m = manager_with(|c| c.show_controls = true);
    let panel = view(Some(&m), &vec![], PlaybackState::Paused);
    assert_eq!(named(panel.previous.as_ref().unwrap()), "media-skip-backward-symbolic");
    assert_eq!(named(panel.next.as_ref().unwrap()), "media-skip-forward-symbolic");
}

#[test]
fn tab_labels_mark_the_active_tab() {
    let tabs = view_window(PopupTab::Controls);
    assert_eq!(tabs.controls_label, "● Controls");
    assert_eq!(tabs.settings_label, "○ Settings");
    assert_eq!(tabs.content, PopupTab::Controls);
    let tabs = view_window(PopupTab::Settings);
    assert_eq!(tabs.controls_label, "○ Controls");
    assert_eq!(tabs.settings_label, "● Settings");
    assert_eq!(tabs.content, PopupTab::Settings);
}

#[test]
fn hidden_stopped_player_changes_nothing() {
    let hide = manager_with(|c| c.hide_inactive_players = true);
    let states = vec![PlaybackState::Playing, PlaybackState::Paused];
    assert_eq!(view_all_players(Some(&hide), &states), vec![0, 1]);
    let with_stopped = vec![PlaybackState::Playing, PlaybackState::Stopped, PlaybackState::Paused];
    assert_eq!(view_all_players(Some(&hide), &with_stopped), vec![0, 2]);
}

#[test]
fn controls_tab_cases() {
    assert_eq!(view_controls_tab(None, true, true, PlaybackState::Playing), ControlsTab::NoPlayerSelected);
    let all = manager_with(|c| c.show_all_players = true);
    assert_eq!(view_controls_tab(Some(&all), false, false, PlaybackState::Paused), ControlsTab::AllPlayers);
    let none = manager_with(|_| {});
    assert_eq!(view_controls_tab(Some(&none), false, false, PlaybackState::Paused), ControlsTab::NoPlayerSelected);
    let one = manager_with(|c| c.selected_player = Some("vlc".to_string()));
    assert_eq!(
        view_controls_tab(Some(&one), true, true, PlaybackState::Playing),
        ControlsTab::NowPlaying { cover: AlbumCover::Art, toggle: AppIcon::Paused }
    );
    assert_eq!(
        view_controls_tab(Some(&one), false, true, PlaybackState::Stopped),
        ControlsTab::NowPlaying { cover: AlbumCover::Loading, toggle: AppIcon::Playing }
    );
    assert_eq!(
        view_controls_tab(Some(&one), false, false, PlaybackState::Paused),
        ControlsTab::NowPlaying { cover: AlbumCover::Placeholder, toggle: AppIcon::Playing }
    );
}

#[test]
fn all_players_list_hides_only_stopped() {
    let states = vec![
        PlaybackState::Stopped,
        PlaybackState::Playing,
        PlaybackState::Paused,
        PlaybackState::Stopped,
    ];
    assert_eq!(view_all_players(None, &states), vec![0, 1, 2, 3]);
    let hide = manager_with(|c| c.hide_inactive_players = true);
    assert_eq!(view_all_players(Some(&hide), &states), vec![1, 2]);
    assert_eq!(view_all_players(Some(&hide), &vec![PlaybackState::Stopped]), Vec::<usize>::new());
}

#[test]
fn short_card_text_is_unchanged() {
    assert_eq!(shorten_card_text("Bohemian Rhapsody"), "Bohemian Rhapsody");
    assert_eq!(shorten_card_text("exactly twenty-five bytes"), "exactly twenty-five bytes");
    assert_eq!(shorten_card_text(""), "");
}

#[test]
fn long_card_text_is_cut_after_25_bytes() {
    assert_eq!(
        shorten_card_text("A Very Long Song Title That Goes On"),
        "A Very Long Song Title Th..."
    );
    // 12 two-byte letters (24 bytes), then an ASCII letter ending at byte 25.
    let text = "éééééééééééézxy";
    assert_eq!(shorten_card_text(text), "ééééééééééééz...");
}

#[test]
fn player_card_contents() {
    let card = view_player_card("Short", "An Artist With A Rather Long Name", PlaybackState::Paused, true);
    assert_eq!(card.title, "Short");
    assert_eq!(card.artist, "An Artist With A Rather L...");
    assert_eq!(card.status_mark, "⏸");
    assert_eq!(card.toggle, AppIcon::Playing);
    assert!(card.show_volume);
    let card = view_player_card("t", "a", PlaybackState::Playing, false);
    assert_eq!(card.status_mark, "▶");
    assert_eq!(card.toggle, AppIcon::Paused);
    assert!(!card.show_volume);
    assert_eq!(view_player_card("t", "a", PlaybackState::Stopped, false).status_mark, "⏹");
}

#[test]
fn selected_index_cases() {
    let players = vec![player("Firefox", false), player("vlc", true), player("vlc", false)];
    assert_eq!(selected_index(&None, &players), Some(0));
    assert_eq!(selected_index(&Some("Firefox".to_string()), &players), Some(1));
    assert_eq!(selected_index(&Some("vlc".to_string()), &players), Some(2));
    assert_eq!(selected_index(&Some("mpv".to_string()), &players), None);
    assert_eq!(selected_index(&None, &vec![]), Some(0));
}

#[test]
fn settings_without_config() {
    let players = vec![player("vlc", true)];
    let settings = view_settings_tab(None, &players);
    assert!(settings.controls.is_none());
    assert!(settings.multi_player.is_none());
    assert!(settings.auto_detect.is_none());
    assert!(!settings.no_players_found);
    match settings.players {
        PlayerList::Selection { selected_index, labels } => {
            assert_eq!(selected_index, Some(0));
            assert_eq!(labels, vec!["vlc (♪ currently playing)".to_string()]);
        }
        other => panic!("unexpected {other:?}"),
    }
}

#[test]
fn settings_single_player_mode() {
    let m = manager_with(|c| {
        c.selected_player = Some("Spotify".to_string());
        c.show_info_pane = true;
        c.info_pane_left = false;
        c.info_pane_width = 320;
        c.show_controls = true;
    });
    let players = vec![player("vlc", false), player("Spotify", true)];
    let settings = view_settings_tab(Some(&m), &players);
    let controls = settings.controls.unwrap();
    assert!(controls.show_controls);
    assert!(controls.show_info_pane);
    let pane = controls.info_pane.unwrap();
    assert!(!pane.left);
    assert_eq!(pane.width, 320);
    let multi = settings.multi_player.unwrap();
    assert!(!multi.show_all_players);
    assert_eq!(multi.hide_inactive, None);
    assert_eq!(settings.auto_detect, Some(true));
    match settings.players {
        PlayerList::Selection { selected_index, labels } => {
            assert_eq!(selected_index, Some(2));
            assert_eq!(labels, vec!["vlc".to_string(), "Spotify (♪ currently playing)".to_string()]);
        }
        other => panic!("unexpected {other:?}"),
    }
}

#[test]
fn settings_multi_player_mode() {
    let m = manager_with(|c| {
        c.show_all_players = true;
        c.hide_inactive_players = true;
        c.auto_detect_new_players = false;
    });
    let settings = view_settings_tab(Some(&m), &vec![player("mpv", true), player("vlc", false)]);
    assert!(settings.controls.as_ref().unwrap().info_pane.is_none());
    let multi = settings.multi_player.unwrap();
    assert!(multi.show_all_players);
    assert_eq!(multi.hide_inactive, Some(true));
    assert_eq!(settings.auto_detect, Some(false));
    match settings.players {
        PlayerList::Listing { labels } => {
            assert_eq!(labels, vec!["mpv ♪".to_string(), "vlc".to_string()]);
        }
        other => panic!("unexpected {other:?}"),
    }
    let empty = view_settings_tab(Some(&m), &vec![]);
    assert!(empty.no_players_found);
}

#[test]
fn play_pause_icon_agrees_across_views() {
    let one = manager_with(|c| c.selected_player = Some("vlc".to_string()));
    for state in [PlaybackState::Playing, PlaybackState::Paused, PlaybackState::Stopped] {
        let panel = view(Some(&one), &vec![], state);
        let tab = view_controls_tab(Some(&one), false, false, state);
        let card = view_player_card("t", "a", state, false);
        assert_eq!(named(&panel.main), card.toggle.to_str());
        assert_eq!(tab, ControlsTab::NowPlaying { cover: AlbumCover::Placeholder, toggle: card.toggle });
    }
}
