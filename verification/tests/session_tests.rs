use apollo_media_state::session::SessionManager;
use apollo_media_state::state::{Metadata, PlayerState};

const COVER: &str = "http://example.com/cover.jpg";
const COVER_URL: &str = "/art/826af14755675e77e3f0a75cc1fb43d9.jpg";

fn track(songid: &str, cover: Option<&str>) -> Metadata {
    Metadata {
        player_state: None,
        songid: Some(songid.to_string()),
        title: Some(format!("title {songid}")),
        artist: Some("artist".to_string()),
        album: Some("album".to_string()),
        cover_url: cover.map(str::to_string),
    }
}

#[test]
fn new_session_is_stopped_and_blank() {
    let session = SessionManager::new("/tmp/art".to_string());
    let s = session.state();
    assert_eq!(s.player_state, PlayerState::Stopped);
    assert!(s.songid.is_none() && s.cover_url.is_none());
}

#[test]
fn transport_change_is_broadcast_once() {
    let mut session = SessionManager::new("/tmp/art".to_string());
    let first = session.update_transport_state(PlayerState::Playing);
    assert_eq!(first.unwrap().player_state, PlayerState::Playing);
    assert!(session.update_transport_state(PlayerState::Playing).is_none());
    assert_eq!(session.state().player_state, PlayerState::Playing);
}

#[test]
fn stopping_forgets_the_track() {
    let mut session = SessionManager::new("/tmp/art".to_string());
    session.update_transport_state(PlayerState::Playing);
    session.update_metadata(track("1", None), false);
    assert_eq!(session.state().songid.as_deref(), Some("1"));
    let b = session.update_transport_state(PlayerState::Stopped).unwrap();
    assert!(b.songid.is_none() && b.title.is_none() && b.artist.is_none());
    assert!(b.album.is_none() && b.cover_url.is_none());
}

#[test]
fn pausing_keeps_the_track() {
    let mut session = SessionManager::new("/tmp/art".to_string());
    session.update_transport_state(PlayerState::Playing);
    session.update_metadata(track("1", None), false);
    let b = session.update_transport_state(PlayerState::Paused).unwrap();
    assert_eq!(b.songid.as_deref(), Some("1"));
    assert_eq!(b.title.as_deref(), Some("title 1"));
}

#[test]
fn new_track_with_uncached_cover_requests_art() {
    let mut session = SessionManager::new("/tmp/art".to_string());
    session.update_transport_state(PlayerState::Playing);
    let update = session.update_metadata(track("7", Some(COVER)), false);
    let b = update.broadcast.unwrap();
    assert_eq!(b.songid.as_deref(), Some("7"));
    assert!(b.cover_url.is_none());
    let req = update.art_request.unwrap();
    assert_eq!(req.songid, "7");
    assert_eq!(req.remote_cover_url, COVER);
    let shown = session.apply_processed_art(&"7".to_string(), COVER_URL.to_string()).unwrap();
    assert_eq!(shown.cover_url.as_deref(), Some(COVER_URL));
}

#[test]
fn new_track_with_cached_cover_shows_it_at_once() {
    let mut session = SessionManager::new("/tmp/art".to_string());
    session.update_transport_state(PlayerState::Playing);
    let update = session.update_metadata(track("7", Some(COVER)), true);
    assert!(update.art_request.is_none());
    assert_eq!(update.broadcast.unwrap().cover_url.as_deref(), Some(COVER_URL));
}

#[test]
fn repeated_metadata_is_ignored() {
    let mut session = SessionManager::new("/tmp/art".to_string());
    session.update_transport_state(PlayerState::Playing);
    session.update_metadata(track("7", None), false);
    let again = session.update_metadata(track("7", None), false);
    assert!(again.broadcast.is_none() && again.art_request.is_none());
}

#[test]
fn metadata_while_stopped_stays_blank() {
    let mut session = SessionManager::new("/tmp/art".to_string());
    let update = session.update_metadata(track("7", Some(COVER)), false);
    let b = update.broadcast.unwrap();
    assert_eq!(b.player_state, PlayerState::Stopped);
    assert!(b.songid.is_none() && b.cover_url.is_none());
    assert!(update.art_request.is_none());
}

#[test]
fn metadata_state_change_alone_is_applied() {
    let mut session = SessionManager::new("/tmp/art".to_string());
    let m = Metadata { player_state: Some(PlayerState::Paused), ..Metadata::default() };
    let b = session.update_metadata(m, false).broadcast.unwrap();
    assert_eq!(b.player_state, PlayerState::Paused);
}

#[test]
fn late_cover_for_current_track_uses_cache() {
    let mut session = SessionManager::new("/tmp/art".to_string());
    session.update_transport_state(PlayerState::Playing);
    session.update_metadata(track("7", None), false);
    let m = Metadata {
        cover_url: Some("http://example.com/late.png".to_string()),
        songid: Some("7".to_string()),
        ..Metadata::default()
    };
    let update = session.update_metadata(m, true);
    assert!(update.art_request.is_none());
    assert_eq!(update.broadcast.unwrap().cover_url.as_deref(), Some("/art/4a1e4b1d700eb3d34ef491ef7b7e041e.jpg"));
}

#[test]
fn late_cover_without_songid_is_taken_as_is() {
    let mut session = SessionManager::new("/tmp/art".to_string());
    session.update_transport_state(PlayerState::Playing);
    let m = Metadata { cover_url: Some("x".to_string()), ..Metadata::default() };
    let update = session.update_metadata(m, false);
    assert!(update.art_request.is_none());
    assert_eq!(update.broadcast.unwrap().cover_url.as_deref(), Some("x"));
}

#[test]
fn processed_art_for_an_old_track_is_dropped() {
    let mut session = SessionManager::new("/tmp/art".to_string());
    session.update_transport_state(PlayerState::Playing);
    session.update_metadata(track("7", Some(COVER)), false);
    session.update_metadata(track("8", None), false);
    assert!(session.apply_processed_art(&"7".to_string(), COVER_URL.to_string()).is_none());
    assert!(session.state().cover_url.is_none());
}

#[test]
fn cached_art_is_broadcast_only_when_new() {
    let mut session = SessionManager::new("/tmp/art".to_string());
    assert!(session.apply_cached_art(COVER_URL.to_string()).is_some());
    assert!(session.apply_cached_art(COVER_URL.to_string()).is_none());
}

#[test]
fn raw_art_is_always_shown_and_clear_removes_it() {
    let mut session = SessionManager::new("/tmp/art".to_string());
    let b = session.apply_raw_art("/art/raw.jpg".to_string());
    assert_eq!(b.cover_url.as_deref(), Some("/art/raw.jpg"));
    assert!(session.clear_cover_art().is_some());
    assert!(session.clear_cover_art().is_none());
    assert!(session.state().cover_url.is_none());
}

#[test]
fn session_art_paths_use_cache_dir() {
    let session = SessionManager::new("/tmp/art".to_string());
    let p = session.art_paths(COVER);
    assert_eq!(p.relative_url, COVER_URL);
    assert_eq!(p.cache_path, "/tmp/art/826af14755675e77e3f0a75cc1fb43d9.jpg");
}
