use apollo_media_state::state::{Metadata, PlayerState, UnifiedState};

#[test]
fn parse_known_states() {
    assert_eq!(PlayerState::parse("playing"), Some(PlayerState::Playing));
    assert_eq!(PlayerState::parse("paused"), Some(PlayerState::Paused));
    assert_eq!(PlayerState::parse("PAUSED_PLAYBACK"), Some(PlayerState::Paused));
    assert_eq!(PlayerState::parse("stopped"), Some(PlayerState::Stopped));
}

#[test]
fn parse_ignores_case_and_surrounding_whitespace() {
    assert_eq!(PlayerState::parse("  Playing\n"), Some(PlayerState::Playing));
    assert_eq!(PlayerState::parse("\tSTOPPED "), Some(PlayerState::Stopped));
    assert_eq!(PlayerState::parse("\u{3000}paused\u{a0}"), Some(PlayerState::Paused));
}

#[test]
fn parse_rejects_other_states() {
    assert_eq!(PlayerState::parse("TRANSITIONING"), None);
    assert_eq!(PlayerState::parse(""), None);
    assert_eq!(PlayerState::parse("play ing"), None);
    assert_eq!(PlayerState::parse_normalized("PLAYING"), None);
    assert_eq!(PlayerState::parse_normalized("playing"), Some(PlayerState::Playing));
}

#[test]
fn state_names() {
    assert_eq!(PlayerState::Playing.as_str(), "playing");
    assert_eq!(PlayerState::Paused.as_str(), "paused");
    assert_eq!(PlayerState::Stopped.as_str(), "stopped");
    assert_eq!(PlayerState::default(), PlayerState::Stopped);
}

#[test]
fn defaults_are_blank() {
    let s = UnifiedState::default();
    assert_eq!(s.player_state, PlayerState::Stopped);
    assert!(s.title.is_none() && s.artist.is_none() && s.album.is_none());
    assert!(s.cover_url.is_none() && s.songid.is_none());
    let m = Metadata::default();
    assert!(m.player_state.is_none() && m.songid.is_none() && m.cover_url.is_none());
}

#[test]
fn parse_reads_back_written_names() {
    for st in [PlayerState::Playing, PlayerState::Paused, PlayerState::Stopped] {
        assert_eq!(PlayerState::parse(st.as_str()), Some(st));
        let normal = format!("  {}\t", st.as_str().to_uppercase());
        assert_eq!(PlayerState::parse(&normal), PlayerState::parse(&normal.trim().to_lowercase()));
    }
}
