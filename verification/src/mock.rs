//! The mock player: plays its configured tracks in turn, forever.
use vstd::prelude::*;

use crate::config::{MockConfig, MockTrackConfig};
use crate::state::{Metadata, MetadataView, PlayerState};
use crate::text::{clone_opt, opt_view};

verus! {

/// The session metadata of a mock track.
pub open spec fn metadata_from_track_spec(track: MockTrackConfig) -> MetadataView {
    MetadataView {
        player_state: None,
        songid: Some(track.songid@),
        title: Some(track.title@),
        artist: Some(track.artist@),
        album: Some(track.album@),
        cover_url: opt_view(track.cover_url),
    }
}

/// The session metadata of a mock track.
pub fn metadata_from_track(track: &MockTrackConfig) -> (r: Metadata)
    ensures
        r@ == metadata_from_track_spec(*track),
{
    Metadata {
        player_state: None,
        songid: Some(track.songid.clone()),
        title: Some(track.title.clone()),
        artist: Some(track.artist.clone()),
        album: Some(track.album.clone()),
        cover_url: clone_opt(&track.cover_url),
    }
}

/// What the mock player does when started.
#[derive(Debug, PartialEq, Eq, Structural)]
pub enum MockStart {
    /// Not enabled: return at once.
    Disabled,
    /// Enabled without tracks: idle.
    Idle,
    /// Play the tracks.
    Run,
}

/// One step of the mock player: the metadata, then the transport state, to report.
pub struct MockStep {
    pub metadata: Metadata,
    pub transport: PlayerState,
}

/// The mock player: its configuration and the position of the next track.
pub struct MockPlayer {
    config: MockConfig,
    index: usize,
}

impl MockPlayer {
    /// The configuration.
    pub closed spec fn config_view(&self) -> MockConfig {
        self.config
    }

    /// The configured tracks.
    pub open spec fn tracks(&self) -> Seq<MockTrackConfig> {
        self.config_view().tracks@
    }

    /// The position of the next track to play.
    pub closed spec fn next_index(&self) -> nat {
        self.index as nat
    }

    /// The next position is a track's, or 0 when there are none.
    pub open spec fn wf(&self) -> bool {
        &&& self.tracks().len() == 0 ==> self.next_index() == 0
        &&& self.tracks().len() > 0 ==> self.next_index() < self.tracks().len()
    }

    /// A mock player that starts with the first track.
    pub fn new(config: MockConfig) -> (r: MockPlayer)
        ensures
            r.wf(),
            r.next_index() == 0,
            r.tracks() == config.tracks@,
            r.config_view() == config,
    {
        MockPlayer { config, index: 0 }
    }

    /// The player's name.
    pub fn name(&self) -> (r: &'static str)
        ensures
            r@ == "mock"@,
    {
        "mock"
    }

    /// Whether the player is enabled.
    pub fn enabled(&self) -> (r: bool)
        ensures
            r == self.config_view().enabled,
    {
        self.config.enabled
    }

    /// Seconds to wait between tracks.
    pub fn interval_secs(&self) -> (r: u64)
        ensures
            r == self.config_view().interval_secs,
    {
        self.config.interval_secs
    }

    /// What starting the player does.
    pub fn start_decision(&self) -> (r: MockStart)
        ensures
            !self.config_view().enabled ==> r == MockStart::Disabled,
            self.config_view().enabled && self.tracks().len() == 0 ==> r == MockStart::Idle,
            self.config_view().enabled && self.tracks().len() > 0 ==> r == MockStart::Run,
    {
        if !self.config.enabled {
            MockStart::Disabled
        } else if self.config.tracks.len() == 0 {
            MockStart::Idle
        } else {
            MockStart::Run
        }
    }

    /// Plays the next track and moves on to the one after it, wrapping around at the end.
    /// There is nothing to play without tracks.
    pub fn step(&mut self) -> (r: Option<MockStep>)
        requires
            old(self).wf(),
        ensures
            final(self).wf(),
            final(self).config_view() == old(self).config_view(),
            old(self).tracks().len() == 0 ==> r is None && final(self).next_index() == 0,
            old(self).tracks().len() > 0 ==> (r matches Some(s) && s.metadata@
                == metadata_from_track_spec(old(self).tracks()[old(self).next_index() as int])
                && s.transport == old(self).tracks()[old(self).next_index() as int].player_state
                && final(self).next_index() == (old(self).next_index() + 1) % old(
                self,
            ).tracks().len()),
    {
        let n = self.config.tracks.len();
        if n == 0 {
            return None;
        }
        let track = &self.config.tracks[self.index];
        let step = MockStep {
            metadata: metadata_from_track(track),
            transport: track.player_state,
        };
        self.index = (self.index + 1) % n;
        Some(step)
    }
}

/// The position after `k` steps from the first track among `n` tracks.
pub open spec fn index_after(n: nat, k: nat) -> nat
    decreases k,
{
    if k == 0 {
        0
    } else {
        ((index_after(n, (k - 1) as nat) + 1) % n) as nat
    }
}

/// The mock player plays its tracks cyclically: the `k`-th step plays track `k mod n`,
/// so after every `n` steps it is back at the first track.
pub proof fn law_mock_cycle(n: nat, k: nat)
    requires
        n > 0,
    ensures
        index_after(n, k) == k % n,
        index_after(n, k * n) == 0,
{
    lemma_index_after_mod(n, k);
    lemma_index_after_mod(n, k * n);
    vstd::arithmetic::div_mod::lemma_mod_multiples_basic(k as int, n as int);
}

proof fn lemma_index_after_mod(n: nat, k: nat)
    requires
        n > 0,
    ensures
        index_after(n, k) == k % n,
    decreases k,
{
    if k > 0 {
        lemma_index_after_mod(n, (k - 1) as nat);
        let a = index_after(n, (k - 1) as nat);
        vstd::arithmetic::div_mod::lemma_mod_bound((k - 1) as int, n as int);
        vstd::arithmetic::div_mod::lemma_small_mod(a, n);
        vstd::arithmetic::div_mod::lemma_add_mod_noop(a as int, 1, n as int);
        vstd::arithmetic::div_mod::lemma_add_mod_noop((k - 1) as int, 1, n as int);
        assert(index_after(n, k) == ((a as int) + 1) % (n as int));
        assert(a as int == ((k - 1) as int) % (n as int));
        assert(((k - 1) as int + 1) == k as int);
    } else {
        vstd::arithmetic::div_mod::lemma_small_mod(0, n);
    }
}

} // verus!
