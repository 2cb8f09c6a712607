use apollo_media_state::config::{MockConfig, MockTrackConfig};
use apollo_media_state::mock::{metadata_from_track, MockPlayer, MockStart};
use apollo_media_state::state::PlayerState;

#[test]
fn metadata_from_track_copies_fields() {
    let t = MockTrackConfig {
        player_state: PlayerState::Paused,
        artist: "a".into(),
        album: "b".into(),
        title: "c".into(),
        songid: "d".into(),
        cover_url: Some("e".into()),
    };
    let m = metadata_from_track(&t);
    assert_eq!(m.player_state, None);
    assert_eq!(m.songid.as_deref(), Some("d"));
    assert_eq!(m.title.as_deref(), Some("c"));
    assert_eq!(m.artist.as_deref(), Some("a"));
    assert_eq!(m.album.as_deref(), Some("b"));
    assert_eq!(m.cover_url.as_deref(), Some("e"));
}

#[test]
fn mock_player_cycles_through_tracks() {
    let mut config = MockConfig::default();
    config.enabled = true;
    let mut player = MockPlayer::new(config);
    assert_eq!(player.start_decision(), MockStart::Run);
    assert_eq!(player.name(), "mock");
    let ids: Vec<(String, PlayerState)> = (0..7)
        .map(|_| {
            let s = player.step().unwrap();
            (s.metadata.songid.unwrap(), s.transport)
        })
        .collect();
    assert_eq!(ids[0], ("101".to_string(), PlayerState::Playing));
    assert_eq!(ids[1], ("101".to_string(), PlayerState::Paused));
    assert_eq!(ids[2], ("102".to_string(), PlayerState::Playing));
    assert_eq!(ids[3], ids[0]);
    assert_eq!(ids[6], ids[0]);
}

#[test]
fn mock_player_start_decisions() {
    let player = MockPlayer::new(MockConfig::default());
    assert_eq!(player.start_decision(), MockStart::Disabled);
    assert!(!player.enabled());
    let mut empty = MockPlayer::new(MockConfig { enabled: true, interval_secs: 1, tracks: vec![] });
    assert_eq!(empty.start_decision(), MockStart::Idle);
    assert!(empty.step().is_none());
    assert_eq!(empty.interval_secs(), 1);
}
