//! Sendspin (Music Assistant) messages: server state, group updates and artwork, turned
//! into session updates.
use vstd::prelude::*;

use crate::state::{Metadata, MetadataView, PlayerState};
use crate::text::{
    chars_of, decimal_i64, decimal_spec, decimal_u64, opt_view, push_chars, push_str,
    signed_decimal_spec, starts_with, starts_with_spec, string_from_chars,
};

verus! {

/// Track progress as the server reports it.
pub struct SendspinProgress {
    /// Playback speed multiplier times 1000; 0 means paused.
    pub playback_speed: i32,
}

/// The metadata part of a Sendspin `server/state` message, as far as the session uses it.
pub struct SendspinMetadata {
    pub title: Option<String>,
    pub artist: Option<String>,
    pub album: Option<String>,
    pub artwork_url: Option<String>,
    pub progress: Option<SendspinProgress>,
}

/// The playback state of a Sendspin group.
#[derive(Clone, Copy, Debug, PartialEq, Eq, Structural)]
pub enum SendspinPlayback {
    Playing,
    Stopped,
}

/// Whether the metadata names anything about a track.
pub open spec fn has_track_metadata_spec(m: SendspinMetadata) -> bool {
    m.title is Some || m.artist is Some || m.album is Some || m.artwork_url is Some
}

/// Whether the metadata names anything about a track.
pub fn has_track_metadata(m: &SendspinMetadata) -> (r: bool)
    ensures
        r == has_track_metadata_spec(*m),
{
    m.title.is_some() || m.artist.is_some() || m.album.is_some() || m.artwork_url.is_some()
}

/// The transport state progress implies: paused at speed zero, else playing.
pub open spec fn player_state_from_progress_spec(p: SendspinProgress) -> PlayerState {
    if p.playback_speed == 0 {
        PlayerState::Paused
    } else {
        PlayerState::Playing
    }
}

/// The transport state progress implies.
pub fn player_state_from_progress(p: &SendspinProgress) -> (r: PlayerState)
    ensures
        r == player_state_from_progress_spec(*p),
{
    if p.playback_speed == 0 {
        PlayerState::Paused
    } else {
        PlayerState::Playing
    }
}

/// The transport state metadata implies: stopped when it carries no progress.
pub open spec fn player_state_from_metadata_spec(m: SendspinMetadata) -> PlayerState {
    match m.progress {
        Some(p) => player_state_from_progress_spec(p),
        None => PlayerState::Stopped,
    }
}

/// The transport state metadata implies.
pub fn player_state_from_metadata(m: &SendspinMetadata) -> (r: PlayerState)
    ensures
        r == player_state_from_metadata_spec(*m),
{
    match &m.progress {
        Some(p) => player_state_from_progress(p),
        None => PlayerState::Stopped,
    }
}

/// A field's text, or empty.
pub open spec fn or_empty(o: Option<String>) -> Seq<char> {
    match o {
        Some(s) => s@,
        None => Seq::empty(),
    }
}

/// The track id made up for Sendspin tracks, which have none of their own:
/// `sendspin:{title}:{artist}:{album}:{artwork_url}`, or none without track metadata.
pub open spec fn synthetic_songid_spec(m: SendspinMetadata) -> Option<Seq<char>> {
    if !has_track_metadata_spec(m) {
        None
    } else {
        Some(
            "sendspin:"@ + or_empty(m.title) + ":"@ + or_empty(m.artist) + ":"@ + or_empty(m.album)
                + ":"@ + or_empty(m.artwork_url),
        )
    }
}

fn push_opt(v: &mut Vec<char>, o: &Option<String>)
    ensures
        final(v)@ == old(v)@ + or_empty(*o),
{
    match o {
        Some(s) => push_str(v, s.as_str()),
        None => {
            assert(old(v)@ + Seq::<char>::empty() =~= old(v)@);
        },
    }
}

/// The track id made up for a Sendspin track.
pub fn synthetic_songid(m: &SendspinMetadata) -> (r: Option<String>)
    ensures
        opt_view(r) == synthetic_songid_spec(*m),
{
    if !has_track_metadata(m) {
        return None;
    }
    let mut id = chars_of("sendspin:");
    push_opt(&mut id, &m.title);
    push_str(&mut id, ":");
    push_opt(&mut id, &m.artist);
    push_str(&mut id, ":");
    push_opt(&mut id, &m.album);
    push_str(&mut id, ":");
    push_opt(&mut id, &m.artwork_url);
    Some(string_from_chars(id.as_slice()))
}

/// The session metadata for Sendspin metadata.
pub open spec fn metadata_from_sendspin_spec(m: SendspinMetadata) -> MetadataView {
    MetadataView {
        player_state: Some(player_state_from_metadata_spec(m)),
        songid: synthetic_songid_spec(m),
        title: opt_view(m.title),
        artist: opt_view(m.artist),
        album: opt_view(m.album),
        cover_url: opt_view(m.artwork_url),
    }
}

/// The session metadata for Sendspin metadata.
pub fn metadata_from_sendspin(m: SendspinMetadata) -> (r: Metadata)
    ensures
        r@ == metadata_from_sendspin_spec(m),
{
    let player_state = player_state_from_metadata(&m);
    let songid = synthetic_songid(&m);
    Metadata {
        player_state: Some(player_state),
        songid,
        title: m.title,
        artist: m.artist,
        album: m.album,
        cover_url: m.artwork_url,
    }
}

/// Metadata that only reports a stop.
pub open spec fn stopped_metadata() -> MetadataView {
    MetadataView {
        player_state: Some(PlayerState::Stopped),
        songid: None,
        title: None,
        artist: None,
        album: None,
        cover_url: None,
    }
}

/// The session metadata a `server/state` message's metadata is reported as: the track
/// when it names one or carries progress; otherwise a stop.
pub open spec fn server_state_report_spec(m: SendspinMetadata) -> MetadataView {
    if has_track_metadata_spec(m) || m.progress is Some {
        metadata_from_sendspin_spec(m)
    } else {
        stopped_metadata()
    }
}

/// What a `server/state` message reports to the session: nothing when it has no metadata;
/// the track when it names one or carries progress; otherwise a stop.
pub fn server_state_metadata(metadata: Option<SendspinMetadata>) -> (r: Option<Metadata>)
    ensures
        match metadata {
            None => r is None,
            Some(m) => r matches Some(md) && md@ == server_state_report_spec(m),
        },
{
    match metadata {
        None => None,
        Some(m) => {
            if has_track_metadata(&m) || m.progress.is_some() {
                Some(metadata_from_sendspin(m))
            } else {
                Some(
                    Metadata {
                        player_state: Some(PlayerState::Stopped),
                        songid: None,
                        title: None,
                        artist: None,
                        album: None,
                        cover_url: None,
                    },
                )
            }
        },
    }
}

/// What a `group/update` message reports to the session: playing is passed on; a stop is
/// not, because the server also reports a pause as stopped, and the progress in the
/// metadata tells the two apart.
pub fn group_update_transport(playback: Option<SendspinPlayback>) -> (r: Option<PlayerState>)
    ensures
        r == (if playback == Some(SendspinPlayback::Playing) {
            Some(PlayerState::Playing)
        } else {
            None
        }),
{
    match playback {
        Some(SendspinPlayback::Playing) => Some(PlayerState::Playing),
        Some(SendspinPlayback::Stopped) | None => None,
    }
}

/// What an artwork chunk asks of the session.
pub enum ArtworkAction {
    /// The chunk is empty: withdraw the cover.
    Clear,
    /// Raw image bytes to be turned into a thumbnail, cached under `source_key`.
    Raw { source_key: String, data: Vec<u8> },
}

/// The cache key of an artwork chunk:
/// `sendspin-art://channel/{channel}/timestamp/{timestamp}/digest/{md5 of the bytes}`.
pub open spec fn artwork_source_key_spec(channel: u8, timestamp: i64, data: Seq<u8>) -> Seq<char> {
    "sendspin-art://channel/"@ + decimal_spec(channel as nat) + "/timestamp/"@
        + signed_decimal_spec(timestamp as int) + "/digest/"@ + crate::art::hex_lower_spec(
        crate::art::md5_digest(data),
    )
}

/// The cache key of an artwork chunk.
pub fn artwork_source_key(channel: u8, timestamp: i64, data: &[u8]) -> (r: String)
    ensures
        r@ == artwork_source_key_spec(channel, timestamp, data@),
{
    let mut key = chars_of("sendspin-art://channel/");
    let ch = decimal_u64(channel as u64);
    push_chars(&mut key, ch.as_slice());
    push_str(&mut key, "/timestamp/");
    let ts = decimal_i64(timestamp);
    push_chars(&mut key, ts.as_slice());
    push_str(&mut key, "/digest/");
    let digest = crate::art::md5_bytes_hex(data);
    push_chars(&mut key, digest.as_slice());
    string_from_chars(key.as_slice())
}

/// What an artwork chunk on a channel asks of the session: an empty chunk clears the
/// cover, any other is a raw image to cache under its source key.
pub fn artwork_action(channel: u8, timestamp: i64, data: &[u8]) -> (r: ArtworkAction)
    ensures
        data@.len() == 0 ==> r is Clear,
        data@.len() > 0 ==> (r matches ArtworkAction::Raw { source_key, data: bytes }
            && source_key@ == artwork_source_key_spec(channel, timestamp, data@) && bytes@
            == data@),
{
    if data.len() == 0 {
        ArtworkAction::Clear
    } else {
        ArtworkAction::Raw {
            source_key: artwork_source_key(channel, timestamp, data),
            data: vstd::slice::slice_to_vec(data),
        }
    }
}

/// The WebSocket URL of a Sendspin server: a `ws://` or `wss://` URL is used as it is;
/// a host with a path gets `ws://` in front; a bare host also gets the `/sendspin` path.
pub open spec fn sendspin_url_spec(server: Seq<char>) -> Seq<char> {
    if starts_with_spec(server, "ws://"@) || starts_with_spec(server, "wss://"@) {
        server
    } else if server.contains('/') {
        "ws://"@ + server
    } else {
        "ws://"@ + server + "/sendspin"@
    }
}

/// The WebSocket URL of a Sendspin server.
pub fn sendspin_url(server: &str) -> (r: String)
    ensures
        r@ == sendspin_url_spec(server@),
{
    let s = chars_of(server);
    if starts_with(s.as_slice(), "ws://") || starts_with(s.as_slice(), "wss://") {
        return string_from_chars(s.as_slice());
    }
    let mut has_slash = false;
    let mut i: usize = 0;
    while i < s.len()
        invariant
            i <= s@.len(),
            has_slash == exists|j: int| 0 <= j < i && s@[j] == '/',
        decreases s@.len() - i,
    {
        if s[i] == '/' {
            has_slash = true;
        }
        i = i + 1;
    }
    let mut url = chars_of("ws://");
    push_chars(&mut url, s.as_slice());
    if !has_slash {
        push_str(&mut url, "/sendspin");
    }
    string_from_chars(url.as_slice())
}

/// The URL is a fixed point: a URL the function made is kept as it is when given again.
pub proof fn law_sendspin_url_idempotent(server: Seq<char>)
    ensures
        sendspin_url_spec(sendspin_url_spec(server)) == sendspin_url_spec(server),
        starts_with_spec(sendspin_url_spec(server), "ws://"@) || starts_with_spec(
            sendspin_url_spec(server),
            "wss://"@,
        ),
{
    reveal_strlit("ws://");
    let u = sendspin_url_spec(server);
    if !(starts_with_spec(server, "ws://"@) || starts_with_spec(server, "wss://"@)) {
        if server.contains('/') {
            assert(u.take(5) =~= "ws://"@);
        } else {
            assert(u.take(5) =~= "ws://"@);
        }
    }
}

/// Whatever state the session is in, once it has applied what a `server/state` message
/// reports, its transport state is the one the message's metadata implies: stopped without
/// progress, paused at speed zero, else playing. A pause that the group reports as a stop
/// is thus told apart by the progress alone.
pub proof fn law_server_state_sets_transport(
    s: crate::state::UnifiedStateView,
    m: SendspinMetadata,
    cover_cached: bool,
)
    ensures
        crate::session::after_metadata_spec(
            s,
            server_state_report_spec(m),
            cover_cached,
        ).player_state == player_state_from_metadata_spec(m),
{
}

/// The session metadata made from Sendspin metadata carries its title, artist, album and
/// artwork URL unchanged, with the transport state the progress implies and the made-up
/// track id.
pub proof fn law_sendspin_metadata_carries_fields(m: SendspinMetadata)
    ensures
        ({
            let md = metadata_from_sendspin_spec(m);
            &&& md.title == opt_view(m.title)
            &&& md.artist == opt_view(m.artist)
            &&& md.album == opt_view(m.album)
            &&& md.cover_url == opt_view(m.artwork_url)
            &&& md.songid == synthetic_songid_spec(m)
            &&& md.player_state == Some(
                match m.progress {
                    Some(p) => if p.playback_speed == 0 {
                        PlayerState::Paused
                    } else {
                        PlayerState::Playing
                    },
                    None => PlayerState::Stopped,
                },
            )
        }),
{
}

/// A `server/state` message that names a track or carries progress is reported as its
/// metadata; one that does neither is reported as a bare stop with no track data.
pub proof fn law_server_state_report(m: SendspinMetadata)
    ensures
        (has_track_metadata_spec(m) || m.progress is Some) ==> server_state_report_spec(m)
            == metadata_from_sendspin_spec(m),
        !(has_track_metadata_spec(m) || m.progress is Some) ==> ({
            let md = server_state_report_spec(m);
            &&& md.player_state == Some(PlayerState::Stopped)
            &&& md.songid is None && md.title is None && md.artist is None
            &&& md.album is None && md.cover_url is None
        }),
{
}

/// A made-up track id exists exactly when the metadata names something about a track.
pub proof fn law_synthetic_songid_iff_track(m: SendspinMetadata)
    ensures
        synthetic_songid_spec(m) is Some == has_track_metadata_spec(m),
{
}

/// The kinds of Sendspin protocol messages.
#[derive(Clone, Copy, Debug, PartialEq, Eq, Structural)]
pub enum SendspinMessageKind {
    ClientHello,
    ServerHello,
    ClientTime,
    ServerTime,
    ClientState,
    ServerState,
    ServerCommand,
    ClientCommand,
    StreamStart,
    StreamEnd,
    StreamClear,
    StreamRequestFormat,
    GroupUpdate,
    ClientGoodbye,
}

/// The protocol name of a message kind.
pub open spec fn message_name_spec(k: SendspinMessageKind) -> Seq<char> {
    match k {
        SendspinMessageKind::ClientHello => "client/hello"@,
        SendspinMessageKind::ServerHello => "server/hello"@,
        SendspinMessageKind::ClientTime => "client/time"@,
        SendspinMessageKind::ServerTime => "server/time"@,
        SendspinMessageKind::ClientState => "client/state"@,
        SendspinMessageKind::ServerState => "server/state"@,
        SendspinMessageKind::ServerCommand => "server/command"@,
        SendspinMessageKind::ClientCommand => "client/command"@,
        SendspinMessageKind::StreamStart => "stream/start"@,
        SendspinMessageKind::StreamEnd => "stream/end"@,
        SendspinMessageKind::StreamClear => "stream/clear"@,
        SendspinMessageKind::StreamRequestFormat => "stream/request-format"@,
        SendspinMessageKind::GroupUpdate => "group/update"@,
        SendspinMessageKind::ClientGoodbye => "client/goodbye"@,
    }
}

/// The protocol name of a message kind.
pub fn message_name(k: SendspinMessageKind) -> (r: &'static str)
    ensures
        r@ == message_name_spec(k),
{
    match k {
        SendspinMessageKind::ClientHello => "client/hello",
        SendspinMessageKind::ServerHello => "server/hello",
        SendspinMessageKind::ClientTime => "client/time",
        SendspinMessageKind::ServerTime => "server/time",
        SendspinMessageKind::ClientState => "client/state",
        SendspinMessageKind::ServerState => "server/state",
        SendspinMessageKind::ServerCommand => "server/command",
        SendspinMessageKind::ClientCommand => "client/command",
        SendspinMessageKind::StreamStart => "stream/start",
        SendspinMessageKind::StreamEnd => "stream/end",
        SendspinMessageKind::StreamClear => "stream/clear",
        SendspinMessageKind::StreamRequestFormat => "stream/request-format",
        SendspinMessageKind::GroupUpdate => "group/update",
        SendspinMessageKind::ClientGoodbye => "client/goodbye",
    }
}

} // verus!
