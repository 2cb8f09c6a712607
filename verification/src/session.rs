//! The session: one unified state that every player updates, and the rules that decide
//! when a change is broadcast and when album art has to be fetched.
use vstd::prelude::*;

use crate::art::{art_paths, art_relative_url, art_relative_url_spec, ArtPaths, art_cache_path_spec};
use crate::state::{blank_state, Metadata, MetadataView, PlayerState, UnifiedState, UnifiedStateView};
use crate::text::{clone_opt, opt_eq};

verus! {

/// In a stopped state nothing is known about a track (album art may still be shown).
pub open spec fn stopped_is_blank(s: UnifiedStateView) -> bool {
    s.player_state == PlayerState::Stopped ==> {
        &&& s.songid is None
        &&& s.title is None
        &&& s.artist is None
        &&& s.album is None
    }
}

/// Next state after a player reports a transport state, and whether it is broadcast.
pub open spec fn transport_transition(s: UnifiedStateView, t: PlayerState) -> (
    UnifiedStateView,
    bool,
) {
    if s.player_state == t {
        (s, false)
    } else if t == PlayerState::Stopped {
        (blank_state(t), true)
    } else {
        (UnifiedStateView { player_state: t, ..s }, true)
    }
}

/// Whether metadata names anything about a track.
pub open spec fn has_track_metadata_spec(m: MetadataView) -> bool {
    ||| m.songid is Some
    ||| m.title is Some
    ||| m.artist is Some
    ||| m.album is Some
    ||| m.cover_url is Some
}

/// The metadata announces a track other than the current one.
pub open spec fn track_changed_spec(s: UnifiedStateView, m: MetadataView) -> bool {
    has_track_metadata_spec(m) && m.songid != s.songid
}

/// The metadata brings a cover where the state has none.
pub open spec fn cover_arrived_spec(s: UnifiedStateView, m: MetadataView) -> bool {
    m.cover_url is Some && s.cover_url is None
}

/// The metadata reports a different transport state.
pub open spec fn transport_changed_spec(s: UnifiedStateView, m: MetadataView) -> bool {
    match m.player_state {
        Some(p) => p != s.player_state,
        None => false,
    }
}

/// Whether metadata changes anything at all.
pub open spec fn metadata_applies_spec(s: UnifiedStateView, m: MetadataView) -> bool {
    track_changed_spec(s, m) || cover_arrived_spec(s, m) || transport_changed_spec(s, m)
}

/// The cover field after a cover source with a known track id arrives: the cached
/// thumbnail when it is there, else nothing until it has been made.
pub open spec fn cached_cover(
    cover: Seq<char>,
    cover_cached: bool,
    otherwise: Option<Seq<char>>,
) -> Option<Seq<char>> {
    if cover_cached {
        Some(art_relative_url_spec(cover))
    } else {
        otherwise
    }
}

/// The state after metadata arrives (when it applies at all); `cover_cached` tells
/// whether the thumbnail of `m.cover_url` is already in the art cache.
pub open spec fn metadata_state_spec(
    s: UnifiedStateView,
    m: MetadataView,
    cover_cached: bool,
) -> UnifiedStateView {
    let p = match m.player_state {
        Some(p) => p,
        None => s.player_state,
    };
    let with_id = m.songid is Some && m.cover_url is Some;
    if p == PlayerState::Stopped {
        blank_state(p)
    } else if track_changed_spec(s, m) {
        UnifiedStateView {
            player_state: p,
            songid: m.songid,
            title: m.title,
            artist: m.artist,
            album: m.album,
            cover_url: if with_id {
                cached_cover(m.cover_url->0, cover_cached, None)
            } else {
                None
            },
        }
    } else if cover_arrived_spec(s, m) {
        UnifiedStateView {
            player_state: p,
            cover_url: if with_id {
                cached_cover(m.cover_url->0, cover_cached, s.cover_url)
            } else {
                m.cover_url
            },
            ..s
        }
    } else {
        UnifiedStateView { player_state: p, ..s }
    }
}

/// The session state after metadata arrives, whether or not it applies.
pub open spec fn after_metadata_spec(
    s: UnifiedStateView,
    m: MetadataView,
    cover_cached: bool,
) -> UnifiedStateView {
    if metadata_applies_spec(s, m) {
        metadata_state_spec(s, m, cover_cached)
    } else {
        s
    }
}

/// The thumbnail that has to be made after metadata arrives: the track id and the
/// remote cover source, when the cover is new, named with a track id and not cached yet.
pub open spec fn metadata_art_request_spec(
    s: UnifiedStateView,
    m: MetadataView,
    cover_cached: bool,
) -> Option<(Seq<char>, Seq<char>)> {
    let p = match m.player_state {
        Some(p) => p,
        None => s.player_state,
    };
    if metadata_applies_spec(s, m) && p != PlayerState::Stopped && (track_changed_spec(s, m)
        || cover_arrived_spec(s, m)) && m.songid is Some && m.cover_url is Some && !cover_cached {
        Some((m.songid->0, m.cover_url->0))
    } else {
        None
    }
}

/// Next state after a cached thumbnail is found, and whether it is broadcast: it is shown,
/// and broadcast unless it was already shown.
pub open spec fn cached_art_transition(s: UnifiedStateView, relative_url: Seq<char>) -> (
    UnifiedStateView,
    bool,
) {
    (UnifiedStateView { cover_url: Some(relative_url), ..s }, s.cover_url != Some(relative_url))
}

/// Next state after a thumbnail for track `songid` was made, and whether it is broadcast:
/// it is shown only while that track is the current one.
pub open spec fn processed_art_transition(
    s: UnifiedStateView,
    songid: Seq<char>,
    relative_url: Seq<char>,
) -> (UnifiedStateView, bool) {
    if s.songid == Some(songid) {
        (UnifiedStateView { cover_url: Some(relative_url), ..s }, true)
    } else {
        (s, false)
    }
}

/// Next state after a player withdraws its cover, and whether it is broadcast.
pub open spec fn clear_cover_transition(s: UnifiedStateView) -> (UnifiedStateView, bool) {
    (UnifiedStateView { cover_url: None, ..s }, s.cover_url is Some)
}

/// A thumbnail to be made for the current track.
pub struct ArtRequest {
    pub songid: String,
    pub remote_cover_url: String,
}

/// What applying metadata asks of the caller: a state to broadcast, and a thumbnail to make.
pub struct MetadataUpdate {
    pub broadcast: Option<UnifiedState>,
    pub art_request: Option<ArtRequest>,
}

/// The session state that all players feed.
pub struct SessionManager {
    state: UnifiedState,
    art_cache_dir: String,
}

impl SessionManager {
    /// The unified state as plain values.
    pub closed spec fn view_state(&self) -> UnifiedStateView {
        self.state@
    }

    /// The directory the thumbnails are cached in.
    pub closed spec fn cache_dir(&self) -> Seq<char> {
        self.art_cache_dir@
    }

    /// A session with nothing playing.
    pub fn new(art_cache_dir: String) -> (r: SessionManager)
        ensures
            r.view_state() == blank_state(PlayerState::Stopped),
            r.cache_dir() == art_cache_dir@,
    {
        SessionManager { state: UnifiedState::default(), art_cache_dir }
    }

    /// The current state.
    pub fn state(&self) -> (r: &UnifiedState)
        ensures
            r@ == self.view_state(),
    {
        &self.state
    }

    /// The served URL and cache file of a cover source's thumbnail.
    pub fn art_paths(&self, source: &str) -> (r: ArtPaths)
        ensures
            r.relative_url@ == art_relative_url_spec(source@),
            r.cache_path@ == art_cache_path_spec(self.cache_dir(), source@),
    {
        art_paths(self.art_cache_dir.as_str(), source)
    }

    /// A player reports its transport state. Returns the state to broadcast, if it changed;
    /// stopping forgets the track.
    pub fn update_transport_state(&mut self, transport_state: PlayerState) -> (r: Option<
        UnifiedState,
    >)
        ensures
            final(self).view_state() == transport_transition(
                old(self).view_state(),
                transport_state,
            ).0,
            final(self).cache_dir() == old(self).cache_dir(),
            r is Some == transport_transition(old(self).view_state(), transport_state).1,
            r matches Some(b) ==> b@ == final(self).view_state(),
    {
        if self.state.player_state == transport_state {
            return None;
        }
        self.state.player_state = transport_state;
        if transport_state == PlayerState::Stopped {
            self.state.title = None;
            self.state.artist = None;
            self.state.album = None;
            self.state.cover_url = None;
            self.state.songid = None;
        }
        Some(self.state.clone())
    }

    /// A player reports track metadata; `cover_cached` tells whether the thumbnail for
    /// `metadata.cover_url` is already in the art cache. Nothing happens unless the track,
    /// the presence of a cover, or the transport state changes.
    pub fn update_metadata(&mut self, metadata: Metadata, cover_cached: bool) -> (r:
        MetadataUpdate)
        ensures
            final(self).view_state() == after_metadata_spec(
                old(self).view_state(),
                metadata@,
                cover_cached,
            ),
            final(self).cache_dir() == old(self).cache_dir(),
            r.broadcast is Some == metadata_applies_spec(old(self).view_state(), metadata@),
            r.broadcast matches Some(b) ==> b@ == final(self).view_state(),
            match r.art_request {
                Some(a) => metadata_art_request_spec(old(self).view_state(), metadata@, cover_cached)
                    == Some((a.songid@, a.remote_cover_url@)),
                None => metadata_art_request_spec(
                    old(self).view_state(),
                    metadata@,
                    cover_cached,
                ) is None,
            },
    {
        let has_track = metadata.songid.is_some() || metadata.title.is_some()
            || metadata.artist.is_some() || metadata.album.is_some()
            || metadata.cover_url.is_some();
        let track_changed = has_track && !opt_eq(&metadata.songid, &self.state.songid);
        let cover_arrived = metadata.cover_url.is_some() && self.state.cover_url.is_none();
        let transport_changed = match metadata.player_state {
            Some(p) => p != self.state.player_state,
            None => false,
        };
        if !track_changed && !cover_arrived && !transport_changed {
            return MetadataUpdate { broadcast: None, art_request: None };
        }
        if let Some(p) = metadata.player_state {
            self.state.player_state = p;
        }
        let mut art_request: Option<ArtRequest> = None;
        if self.state.player_state == PlayerState::Stopped {
            self.state.songid = None;
            self.state.title = None;
            self.state.artist = None;
            self.state.album = None;
            self.state.cover_url = None;
        } else if track_changed {
            self.state.songid = clone_opt(&metadata.songid);
            self.state.title = clone_opt(&metadata.title);
            self.state.artist = clone_opt(&metadata.artist);
            self.state.album = clone_opt(&metadata.album);
            self.state.cover_url = None;
            if let (Some(songid), Some(remote)) = (&metadata.songid, &metadata.cover_url) {
                if cover_cached {
                    self.state.cover_url = Some(art_relative_url(remote.as_str()));
                } else {
                    art_request = Some(
                        ArtRequest { songid: songid.clone(), remote_cover_url: remote.clone() },
                    );
                }
            }
        } else if cover_arrived {
            if let (Some(songid), Some(remote)) = (&metadata.songid, &metadata.cover_url) {
                if cover_cached {
                    self.state.cover_url = Some(art_relative_url(remote.as_str()));
                } else {
                    art_request = Some(
                        ArtRequest { songid: songid.clone(), remote_cover_url: remote.clone() },
                    );
                }
            } else {
                self.state.cover_url = clone_opt(&metadata.cover_url);
            }
        }
        MetadataUpdate { broadcast: Some(self.state.clone()), art_request }
    }

    /// A player withdraws its cover. Returns the state to broadcast, if there was a cover.
    pub fn clear_cover_art(&mut self) -> (r: Option<UnifiedState>)
        ensures
            final(self).view_state() == clear_cover_transition(old(self).view_state()).0,
            final(self).cache_dir() == old(self).cache_dir(),
            r is Some == clear_cover_transition(old(self).view_state()).1,
            r matches Some(b) ==> b@ == final(self).view_state(),
    {
        if self.state.cover_url.is_none() {
            return None;
        }
        self.state.cover_url = None;
        Some(self.state.clone())
    }

    /// A thumbnail was found in the cache: show it, unless it is already shown.
    /// Returns the state to broadcast, if it changed.
    pub fn apply_cached_art(&mut self, relative_url: String) -> (r: Option<UnifiedState>)
        ensures
            final(self).view_state() == cached_art_transition(old(self).view_state(), relative_url@).0,
            final(self).cache_dir() == old(self).cache_dir(),
            r is Some == cached_art_transition(old(self).view_state(), relative_url@).1,
            r matches Some(b) ==> b@ == final(self).view_state(),
    {
        let wanted = Some(relative_url);
        if opt_eq(&self.state.cover_url, &wanted) {
            return None;
        }
        self.state.cover_url = wanted;
        Some(self.state.clone())
    }

    /// A thumbnail for track `songid` has just been made: show it if that track is still
    /// the current one. Returns the state to broadcast, if it changed.
    pub fn apply_processed_art(&mut self, songid: &String, relative_url: String) -> (r: Option<
        UnifiedState,
    >)
        ensures
            final(self).view_state() == processed_art_transition(
                old(self).view_state(),
                songid@,
                relative_url@,
            ).0,
            final(self).cache_dir() == old(self).cache_dir(),
            r is Some == processed_art_transition(old(self).view_state(), songid@, relative_url@).1,
            r matches Some(b) ==> b@ == final(self).view_state(),
    {
        let current = Some(songid.clone());
        if opt_eq(&self.state.songid, &current) {
            self.state.cover_url = Some(relative_url);
            Some(self.state.clone())
        } else {
            None
        }
    }

    /// A thumbnail made from raw image bytes a player sent: show it. Returns the state to
    /// broadcast.
    pub fn apply_raw_art(&mut self, relative_url: String) -> (r: UnifiedState)
        ensures
            final(self).view_state() == (UnifiedStateView {
                cover_url: Some(relative_url@),
                ..old(self).view_state()
            }),
            final(self).cache_dir() == old(self).cache_dir(),
            r@ == final(self).view_state(),
    {
        self.state.cover_url = Some(relative_url);
        self.state.clone()
    }
}

} // verus!

verus! {

/// The state with its cover replaced.
pub open spec fn with_cover(s: UnifiedStateView, cover: Option<Seq<char>>) -> UnifiedStateView {
    UnifiedStateView { cover_url: cover, ..s }
}

/// Every operation on the session keeps a stopped state free of track data: transport
/// reports, metadata (whether or not it applies), and every change of the cover.
pub proof fn law_stopped_state_has_no_track(
    s: UnifiedStateView,
    t: PlayerState,
    m: MetadataView,
    cover_cached: bool,
    cover: Option<Seq<char>>,
)
    requires
        stopped_is_blank(s),
    ensures
        stopped_is_blank(transport_transition(s, t).0),
        stopped_is_blank(metadata_state_spec(s, m, cover_cached)),
        stopped_is_blank(with_cover(s, cover)),
{
}

/// Reporting the same transport state twice broadcasts once: the second report changes
/// nothing.
pub proof fn law_transport_report_idempotent(s: UnifiedStateView, t: PlayerState)
    ensures
        transport_transition(transport_transition(s, t).0, t) == (
        transport_transition(s, t).0,
        false,
        ),
{
}

/// After any transport report the session is in the reported state.
pub proof fn law_transport_report_is_obeyed(s: UnifiedStateView, t: PlayerState)
    ensures
        transport_transition(s, t).0.player_state == t,
{
}

/// A thumbnail is requested only for the track the session then shows, from the cover the
/// metadata named, and only while no cover is shown.
pub proof fn law_art_request_targets_current_track(
    s: UnifiedStateView,
    m: MetadataView,
    cover_cached: bool,
)
    requires
        metadata_art_request_spec(s, m, cover_cached) is Some,
    ensures
        ({
            let next = metadata_state_spec(s, m, cover_cached);
            let (songid, source) = metadata_art_request_spec(s, m, cover_cached)->0;
            &&& next.songid == Some(songid)
            &&& next.cover_url is None
            &&& m.cover_url == Some(source)
            &&& next.player_state != PlayerState::Stopped
        }),
{
}

/// A requested thumbnail, once made, is shown and broadcast when no other track has
/// arrived in between.
pub proof fn law_requested_art_is_shown(
    s: UnifiedStateView,
    m: MetadataView,
    cover_cached: bool,
    relative_url: Seq<char>,
)
    requires
        metadata_art_request_spec(s, m, cover_cached) is Some,
    ensures
        ({
            let next = metadata_state_spec(s, m, cover_cached);
            let songid = (metadata_art_request_spec(s, m, cover_cached)->0).0;
            let (shown, broadcast) = processed_art_transition(next, songid, relative_url);
            &&& broadcast
            &&& shown.cover_url == Some(relative_url)
            &&& shown.songid == next.songid
        }),
{
}

/// Showing the same cached thumbnail twice broadcasts once; withdrawing the cover twice
/// broadcasts once.
pub proof fn law_cover_updates_idempotent(s: UnifiedStateView, relative_url: Seq<char>)
    ensures
        !cached_art_transition(cached_art_transition(s, relative_url).0, relative_url).1,
        cached_art_transition(cached_art_transition(s, relative_url).0, relative_url).0
            == cached_art_transition(s, relative_url).0,
        !clear_cover_transition(clear_cover_transition(s).0).1,
{
}

/// Metadata that changes nothing leaves nothing to broadcast and nothing to fetch.
pub proof fn law_ignored_metadata_requests_nothing(
    s: UnifiedStateView,
    m: MetadataView,
    cover_cached: bool,
)
    requires
        !metadata_applies_spec(s, m),
    ensures
        metadata_art_request_spec(s, m, cover_cached) is None,
{
}

} // verus!

verus! {

/// A report of any transport state other than stopped changes nothing but the transport
/// state: the track, its texts and its cover stay as they were.
pub proof fn law_transport_report_keeps_track(s: UnifiedStateView, t: PlayerState)
    requires
        t != PlayerState::Stopped,
    ensures
        ({
            let next = transport_transition(s, t).0;
            &&& next.player_state == t
            &&& next.songid == s.songid
            &&& next.title == s.title
            &&& next.artist == s.artist
            &&& next.album == s.album
            &&& next.cover_url == s.cover_url
        }),
{
}

/// A stop report to a session that is not stopped forgets the track, its texts and its
/// cover (to a stopped session it changes nothing, as every repeated report).
pub proof fn law_stop_report_forgets_track(s: UnifiedStateView)
    requires
        s.player_state != PlayerState::Stopped,
    ensures
        ({
            let next = transport_transition(s, PlayerState::Stopped).0;
            &&& next.player_state == PlayerState::Stopped
            &&& next.songid is None
            &&& next.title is None
            &&& next.artist is None
            &&& next.album is None
            &&& next.cover_url is None
        }),
{
}

/// When metadata announces a new track and the session is not left stopped, the session
/// takes the track id and texts from the metadata, and its cover is either nothing or the
/// cached thumbnail of the metadata's own cover source (with a track id): the previous
/// track's cover is never kept.
pub proof fn law_new_track_replaces_track_and_cover(
    s: UnifiedStateView,
    m: MetadataView,
    cover_cached: bool,
)
    requires
        track_changed_spec(s, m),
        after_metadata_spec(s, m, cover_cached).player_state != PlayerState::Stopped,
    ensures
        ({
            let next = after_metadata_spec(s, m, cover_cached);
            &&& next.songid == m.songid
            &&& next.title == m.title
            &&& next.artist == m.artist
            &&& next.album == m.album
            &&& (next.cover_url is None || (m.songid is Some && m.cover_url is Some
                && next.cover_url == Some(art_relative_url_spec(m.cover_url->0))))
            &&& (next.cover_url is Some <==> (m.songid is Some && m.cover_url is Some
                && cover_cached))
        }),
{
}

/// Metadata about the current track that only brings a cover keeps the track and its texts.
pub proof fn law_cover_arrival_keeps_track(s: UnifiedStateView, m: MetadataView, cover_cached: bool)
    requires
        !track_changed_spec(s, m),
        after_metadata_spec(s, m, cover_cached).player_state != PlayerState::Stopped,
    ensures
        ({
            let next = after_metadata_spec(s, m, cover_cached);
            &&& next.songid == s.songid
            &&& next.title == s.title
            &&& next.artist == s.artist
            &&& next.album == s.album
        }),
{
}

/// Metadata sets the transport state it carries; without one the transport state stays.
pub proof fn law_metadata_sets_transport(s: UnifiedStateView, m: MetadataView, cover_cached: bool)
    ensures
        after_metadata_spec(s, m, cover_cached).player_state == match m.player_state {
            Some(p) => p,
            None => s.player_state,
        },
{
}

/// Withdrawing the cover, showing a cached thumbnail, or showing a thumbnail made for the
/// current track changes only the cover; a thumbnail made for another track changes nothing.
pub proof fn law_cover_changes_touch_only_cover(
    s: UnifiedStateView,
    songid: Seq<char>,
    relative_url: Seq<char>,
)
    ensures
        ({
            let c = clear_cover_transition(s).0;
            let a = cached_art_transition(s, relative_url).0;
            let p = processed_art_transition(s, songid, relative_url).0;
            &&& c.cover_url is None && a.cover_url == Some(relative_url)
            &&& c.player_state == s.player_state && a.player_state == s.player_state
            &&& c.songid == s.songid && a.songid == s.songid
            &&& c.title == s.title && a.title == s.title
            &&& c.artist == s.artist && a.artist == s.artist
            &&& c.album == s.album && a.album == s.album
            &&& (s.songid == Some(songid) ==> p == a)
            &&& (s.songid != Some(songid) ==> p == s)
        }),
{
}

} // verus!
