use apollo_media_state::sendspin::{
    artwork_action, artwork_source_key, group_update_transport, has_track_metadata, message_name,
    metadata_from_sendspin, player_state_from_metadata, player_state_from_progress,
    sendspin_url, server_state_metadata, synthetic_songid, ArtworkAction, SendspinMessageKind,
    SendspinMetadata, SendspinPlayback, SendspinProgress,
};
use apollo_media_state::session::SessionManager;
use apollo_media_state::state::PlayerState;

fn meta(title: Option<&str>, speed: Option<i32>) -> SendspinMetadata {
    SendspinMetadata {
        title: title.map(str::to_string),
        artist: Some("Artist".to_string()),
        album: None,
        artwork_url: Some("http://art/1.jpg".to_string()),
        progress: speed.map(|playback_speed| SendspinProgress { playback_speed }),
    }
}

#[test]
fn url_forms() {
    assert_eq!(sendspin_url("pluto:8095"), "ws://pluto:8095/sendspin");
    assert_eq!(sendspin_url("pluto:8095/custom"), "ws://pluto:8095/custom");
    assert_eq!(sendspin_url("ws://pluto:8095/x"), "ws://pluto:8095/x");
    assert_eq!(sendspin_url("wss://secure"), "wss://secure");
    assert_eq!(sendspin_url(&sendspin_url("pluto")), sendspin_url("pluto"));
}

#[test]
fn songid_is_synthesised_from_fields() {
    assert_eq!(
        synthetic_songid(&meta(Some("Song"), None)).as_deref(),
        Some("sendspin:Song:Artist::http://art/1.jpg")
    );
    let empty = SendspinMetadata { title: None, artist: None, album: None, artwork_url: None, progress: None };
    assert!(synthetic_songid(&empty).is_none());
    assert!(!has_track_metadata(&empty));
}

#[test]
fn transport_state_from_progress() {
    assert_eq!(player_state_from_progress(&SendspinProgress { playback_speed: 0 }), PlayerState::Paused);
    assert_eq!(player_state_from_progress(&SendspinProgress { playback_speed: 1000 }), PlayerState::Playing);
    assert_eq!(player_state_from_metadata(&meta(None, None)), PlayerState::Stopped);
}

#[test]
fn metadata_conversion() {
    let m = metadata_from_sendspin(meta(Some("Song"), Some(1000)));
    assert_eq!(m.player_state, Some(PlayerState::Playing));
    assert_eq!(m.songid.as_deref(), Some("sendspin:Song:Artist::http://art/1.jpg"));
    assert_eq!(m.title.as_deref(), Some("Song"));
    assert_eq!(m.cover_url.as_deref(), Some("http://art/1.jpg"));
    assert!(m.album.is_none());
}

#[test]
fn server_state_decisions() {
    assert!(server_state_metadata(None).is_none());
    let empty = SendspinMetadata { title: None, artist: None, album: None, artwork_url: None, progress: None };
    let stop = server_state_metadata(Some(empty)).unwrap();
    assert_eq!(stop.player_state, Some(PlayerState::Stopped));
    assert!(stop.songid.is_none() && stop.title.is_none());
    let only_progress = SendspinMetadata {
        title: None,
        artist: None,
        album: None,
        artwork_url: None,
        progress: Some(SendspinProgress { playback_speed: 0 }),
    };
    let paused = server_state_metadata(Some(only_progress)).unwrap();
    assert_eq!(paused.player_state, Some(PlayerState::Paused));
    assert!(paused.songid.is_none());
}

#[test]
fn group_updates_only_pass_playing() {
    assert_eq!(group_update_transport(Some(SendspinPlayback::Playing)), Some(PlayerState::Playing));
    assert_eq!(group_update_transport(Some(SendspinPlayback::Stopped)), None);
    assert_eq!(group_update_transport(None), None);
}

#[test]
fn artwork_chunks() {
    assert!(matches!(artwork_action(0, 1, &[]), ArtworkAction::Clear));
    match artwork_action(2, -15, &[1, 2, 3]) {
        ArtworkAction::Raw { source_key, data } => {
            assert_eq!(source_key, "sendspin-art://channel/2/timestamp/-15/digest/5289df737df57326fcdd22597afb1fac");
            assert_eq!(data, vec![1, 2, 3]);
        }
        ArtworkAction::Clear => panic!("expected raw art"),
    }
    assert_eq!(
        artwork_source_key(255, i64::MIN, &[]),
        "sendspin-art://channel/255/timestamp/-9223372036854775808/digest/d41d8cd98f00b204e9800998ecf8427e"
    );
    assert_eq!(
        artwork_source_key(0, 1700000000000000, &[]),
        "sendspin-art://channel/0/timestamp/1700000000000000/digest/d41d8cd98f00b204e9800998ecf8427e"
    );
}

#[test]
fn message_names() {
    assert_eq!(message_name(SendspinMessageKind::ServerState), "server/state");
    assert_eq!(message_name(SendspinMessageKind::GroupUpdate), "group/update");
    assert_eq!(message_name(SendspinMessageKind::StreamRequestFormat), "stream/request-format");
    assert_eq!(message_name(SendspinMessageKind::ClientGoodbye), "client/goodbye");
}

#[test]
fn server_state_progress_sets_session_transport() {
    let mut session = SessionManager::new("/tmp/art".to_string());
    let playing = server_state_metadata(Some(meta(Some("Song"), Some(1000)))).unwrap();
    session.update_metadata(playing, true);
    assert_eq!(session.state().player_state, PlayerState::Playing);
    let paused = server_state_metadata(Some(meta(Some("Song"), Some(0)))).unwrap();
    session.update_metadata(paused, true);
    assert_eq!(session.state().player_state, PlayerState::Paused);
    let empty = SendspinMetadata {
        title: None,
        artist: None,
        album: None,
        artwork_url: None,
        progress: None,
    };
    session.update_metadata(server_state_metadata(Some(empty)).unwrap(), false);
    assert_eq!(session.state().player_state, PlayerState::Stopped);
    assert!(session.state().songid.is_none());
}
