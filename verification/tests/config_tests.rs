use apollo_media_state::config::{
    config_path, config_plan, default_config_path, ConfigPlan, AppConfig, MockConfig, MockTrackConfig, PlayersConfig, SendspinConfig,
    ServerConfig, ShairportConfig, UpnpConfig, CONFIG_APP_DIR, CONFIG_FILE_NAME,
};
use apollo_media_state::state::PlayerState;

#[test]
fn default_config_path_uses_apollo_server_toml() {
    let suffix = format!("{}/{}", CONFIG_APP_DIR, CONFIG_FILE_NAME);
    let path = default_config_path(Some("/home/user/.config".to_string()), None);
    assert!(path.ends_with(&suffix));
    let path = default_config_path(None, Some("/home/user".to_string()));
    assert!(path.ends_with(&suffix));
    let path = default_config_path(None, None);
    assert!(path.ends_with(&suffix));
}

#[test]
fn config_path_prefers_xdg_config_home() {
    assert_eq!(
        default_config_path(Some("/xdg".to_string()), Some("/home/user".to_string())),
        "/xdg/apollo/server.toml"
    );
}

#[test]
fn config_path_falls_back_to_home() {
    assert_eq!(
        default_config_path(Some(String::new()), Some("/home/user".to_string())),
        "/home/user/.config/apollo/server.toml"
    );
    assert_eq!(
        default_config_path(None, Some("/home/user/".to_string())),
        "/home/user/.config/apollo/server.toml"
    );
}

#[test]
fn config_path_falls_back_to_relative_dot_config() {
    assert_eq!(
        default_config_path(None, Some(String::new())),
        ".config/apollo/server.toml"
    );
    assert_eq!(default_config_path(None, None), ".config/apollo/server.toml");
}

#[test]
fn config_path_joins_onto_root_without_doubling_separator() {
    assert_eq!(default_config_path(Some("/".to_string()), None), "/apollo/server.toml");
}

#[test]
fn default_app_config_values() {
    let config = AppConfig::default();
    assert_eq!(config.server.host, "0.0.0.0");
    assert_eq!(config.server.web_port, 5556);
    assert_eq!(config.server.tcp_port, 5557);
    assert_eq!(config.server.art_cache_dir, "/tmp/art_cache");
    assert!(!config.players.shairport.enabled);
    assert!(!config.players.upnp.enabled);
    assert!(!config.players.sendspin.enabled);
    assert_eq!(config.players.sendspin.server, "pluto:8095");
    assert!(!config.players.mock.enabled);
    assert_eq!(config.players.mock.tracks.len(), 3);
}

#[test]
fn default_player_configs() {
    let shairport = ShairportConfig::default();
    assert_eq!(shairport.pipe_path, "/tmp/shairport-sync-metadata");
    assert_eq!(shairport.art_staging_dir, "/tmp/shairport_art_cache");
    assert_eq!(shairport.retry_secs, 5);
    let upnp = UpnpConfig::default();
    assert_eq!(upnp.renderer_name, "Apollo UPNP");
    assert_eq!(upnp.search_retry_secs, 15);
    assert_eq!(upnp.resubscribe_secs, 20 * 60);
    let sendspin = SendspinConfig::default();
    assert_eq!(sendspin.client_id, "apollo-server");
    assert_eq!(sendspin.name, "Apollo Server");
    let server = ServerConfig::default();
    assert_eq!(server.host, "0.0.0.0");
    let players = PlayersConfig::default();
    assert_eq!(players.mock.interval_secs, 8);
}

#[test]
fn default_mock_tracks() {
    let mock = MockConfig::default();
    assert_eq!(mock.interval_secs, 8);
    assert_eq!(mock.tracks[0].player_state, PlayerState::Playing);
    assert_eq!(mock.tracks[0].artist, "Daft Punk");
    assert_eq!(mock.tracks[0].title, "One More Time");
    assert_eq!(mock.tracks[0].songid, "101");
    assert_eq!(mock.tracks[1].player_state, PlayerState::Paused);
    assert_eq!(mock.tracks[1].songid, "101");
    assert_eq!(mock.tracks[2].artist, "Gorillaz");
    assert_eq!(mock.tracks[2].album, "Demon Days");
    assert_eq!(mock.tracks[2].title, "Feel Good Inc");
    assert_eq!(mock.tracks[2].songid, "102");
    assert!(mock.tracks.iter().all(|t| t.cover_url.is_none()));
    let blank = MockTrackConfig::default();
    assert_eq!(blank.player_state, PlayerState::Playing);
    assert!(blank.artist.is_empty() && blank.songid.is_empty());
}

#[test]
fn explicit_config_path_wins() {
    assert_eq!(
        config_path(Some("/etc/apollo.toml".to_string()), Some("/xdg".to_string()), None),
        "/etc/apollo.toml"
    );
    assert_eq!(config_path(Some(String::new()), Some("/xdg".to_string()), None), "");
    assert_eq!(config_path(None, Some("/xdg".to_string()), None), "/xdg/apollo/server.toml");
}

#[test]
fn missing_config_file_plans() {
    assert_eq!(config_plan(true, true), ConfigPlan::ReadFile);
    assert_eq!(config_plan(false, true), ConfigPlan::ReadFile);
    assert_eq!(config_plan(true, false), ConfigPlan::MissingExplicitFile);
    assert_eq!(config_plan(false, false), ConfigPlan::BuiltInDefaults);
}
