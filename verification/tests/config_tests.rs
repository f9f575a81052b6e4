use music_player::config::{AppConfig, ConfigManager};
use music_player::players::PlayerSet;

fn fresh_manager() -> ConfigManager {
    let (manager, must_store) = ConfigManager::new(None);
    assert!(must_store);
    manager
}

#[test]
fn default_config_values() {
    let config = AppConfig::default();
    assert!(config.enabled_players.names().is_empty());
    assert!(config.auto_detect_new_players);
    assert_eq!(config.selected_player, None);
    assert!(!config.show_all_players);
    assert!(!config.hide_inactive_players);
    assert_eq!(config.custom_play_icon, None);
    assert_eq!(config.custom_pause_icon, None);
    assert_eq!(config.custom_next_icon, None);
    assert_eq!(config.custom_previous_icon, None);
    assert!(!config.show_controls);
    assert!(!config.show_info_pane);
    assert!(config.info_pane_left);
    assert_eq!(config.info_pane_width, 250);
    assert_eq!(config.album_size, 70);
}

#[test]
fn fresh_start_uses_defaults_and_stores_them() {
    let manager = fresh_manager();
    assert!(manager.get_auto_detect_new_players());
    assert_eq!(manager.get_selected_player(), None);
    assert_eq!(manager.get_info_pane_width(), 250);
    assert_eq!(manager.get_album_size(), 70);
    assert!(manager.get_info_pane_left());
    assert!(!manager.get_show_controls());
}

#[test]
fn stored_config_is_kept_without_storing_again() {
    let mut stored = AppConfig::default();
    stored.album_size = 96;
    stored.selected_player = Some("Rhythmbox".to_string());
    stored.show_all_players = true;
    let (manager, must_store) = ConfigManager::new(Some(stored));
    assert!(!must_store);
    assert_eq!(manager.get_album_size(), 96);
    assert_eq!(manager.get_selected_player(), Some("Rhythmbox".to_string()));
    assert!(manager.get_show_all_players());
    assert_eq!(manager.app_config().album_size, 96);
}

#[test]
fn each_setter_is_read_back() {
    let mut m = fresh_manager();
    m.set_selected_player(Some("vlc".to_string()));
    assert_eq!(m.get_selected_player(), Some("vlc".to_string()));
    m.set_selected_player(None);
    assert_eq!(m.get_selected_player(), None);
    m.set_auto_detect_new_players(false);
    assert!(!m.get_auto_detect_new_players());
    m.set_show_all_players(true);
    assert!(m.get_show_all_players());
    m.set_hide_inactive_players(true);
    assert!(m.get_hide_inactive_players());
    m.set_show_controls(true);
    assert!(m.get_show_controls());
    m.set_show_info_pane(true);
    assert!(m.get_show_info_pane());
    m.set_info_pane_left(false);
    assert!(!m.get_info_pane_left());
    m.set_info_pane_width(480);
    assert_eq!(m.get_info_pane_width(), 480);
    m.set_album_size(20);
    assert_eq!(m.get_album_size(), 20);
}

#[test]
fn a_setter_leaves_other_settings_alone() {
    let mut m = fresh_manager();
    m.set_info_pane_width(300);
    m.set_album_size(40);
    assert_eq!(m.get_info_pane_width(), 300);
    assert!(m.get_auto_detect_new_players());
    assert!(m.get_info_pane_left());
    assert!(!m.get_show_all_players());
}

#[test]
fn custom_icons_are_read() {
    let mut stored = AppConfig::default();
    stored.custom_play_icon = Some("/icons/play.svg".to_string());
    stored.custom_pause_icon = Some("/icons/pause.svg".to_string());
    stored.custom_next_icon = Some(String::new());
    let (m, _) = ConfigManager::new(Some(stored));
    assert_eq!(m.get_custom_play_icon(), Some("/icons/play.svg".to_string()));
    assert_eq!(m.get_custom_pause_icon(), Some("/icons/pause.svg".to_string()));
    assert_eq!(m.get_custom_next_icon(), Some(String::new()));
    assert_eq!(m.get_custom_previous_icon(), None);
}

#[test]
fn discovered_player_is_enabled_when_auto_detecting() {
    let mut m = fresh_manager();
    assert!(m.add_discovered_player("Spotify".to_string()));
    assert!(m.app_config().enabled_players.contains(&"Spotify".to_string()));
    assert_eq!(m.app_config().enabled_players.names().len(), 1);
}

#[test]
fn discovered_player_is_ignored_without_auto_detect() {
    let mut m = fresh_manager();
    m.set_auto_detect_new_players(false);
    assert!(!m.add_discovered_player("Spotify".to_string()));
    assert!(!m.app_config().enabled_players.contains(&"Spotify".to_string()));
    assert!(m.app_config().enabled_players.names().is_empty());
}

#[test]
fn discovering_twice_enables_once() {
    let mut m = fresh_manager();
    assert!(m.add_discovered_player("mpv".to_string()));
    assert!(m.add_discovered_player("mpv".to_string()));
    assert_eq!(m.app_config().enabled_players.names(), &vec!["mpv".to_string()]);
}

#[test]
fn player_set_keeps_each_name_once() {
    let mut set = PlayerSet::new();
    assert!(set.insert("a".to_string()));
    assert!(set.insert("b".to_string()));
    assert!(!set.insert("a".to_string()));
    assert!(set.contains(&"a".to_string()));
    assert!(set.contains(&"b".to_string()));
    assert!(!set.contains(&"c".to_string()));
    assert_eq!(set.names(), &vec!["a".to_string(), "b".to_string()]);
    let copy = set.clone();
    assert_eq!(copy.names(), set.names());
}

#[test]
fn setters_keep_players_and_custom_icons() {
    let mut stored = AppConfig::default();
    stored.custom_play_icon = Some("/p.svg".to_string());
    let (mut m, _) = ConfigManager::new(Some(stored));
    assert!(m.add_discovered_player("mpv".to_string()));
    m.set_auto_detect_new_players(false);
    assert!(!m.add_discovered_player("vlc".to_string()));
    m.set_show_all_players(true);
    m.set_selected_player(Some("mpv".to_string()));
    m.set_album_size(10);
    assert_eq!(m.app_config().enabled_players.names(), &vec!["mpv".to_string()]);
    assert_eq!(m.get_custom_play_icon(), Some("/p.svg".to_string()));
    assert_eq!(m.get_custom_pause_icon(), None);
}
