//! The unified player state that is broadcast to display clients.
use vstd::prelude::*;

use crate::text::{
    ascii_lower_spec, chars_eq_str, chars_of, clone_opt, is_whitespace_spec, lemma_ascii_lower_text,
    lemma_trim_ascii,
    lemma_trim_fixed, lemma_trim_idempotent, lemma_trim_shape, lowercase_text_spec, opt_view,
    string_from_chars, to_lowercase, trim, trim_spec,
};

verus! {

/// Transport state of the active player.
#[derive(Clone, Copy, Debug, PartialEq, Eq, Structural)]
pub enum PlayerState {
    Playing,
    Paused,
    Stopped,
}

/// What a lowercased, trimmed transport-state name parses to.
pub open spec fn parse_normalized_spec(s: Seq<char>) -> Option<PlayerState> {
    if s == "playing"@ {
        Some(PlayerState::Playing)
    } else if s == "paused"@ || s == "paused_playback"@ {
        Some(PlayerState::Paused)
    } else if s == "stopped"@ {
        Some(PlayerState::Stopped)
    } else {
        None
    }
}

/// What `PlayerState::parse` gives for an input text: trimmed, lowercased, then matched.
pub open spec fn parse_spec(input: Seq<char>) -> Option<PlayerState> {
    parse_normalized_spec(lowercase_text_spec(trim_spec(input)))
}

/// The name a player state is written as.
pub open spec fn player_state_name(p: PlayerState) -> Seq<char> {
    match p {
        PlayerState::Playing => "playing"@,
        PlayerState::Paused => "paused"@,
        PlayerState::Stopped => "stopped"@,
    }
}

impl PlayerState {
    /// Matches an already trimmed and lowercased name.
    pub fn parse_normalized(normalized: &str) -> (r: Option<PlayerState>)
        ensures
            r == parse_normalized_spec(normalized@),
    {
        let s = chars_of(normalized);
        if chars_eq_str(s.as_slice(), "playing") {
            Some(PlayerState::Playing)
        } else if chars_eq_str(s.as_slice(), "paused") || chars_eq_str(s.as_slice(), "paused_playback") {
            Some(PlayerState::Paused)
        } else if chars_eq_str(s.as_slice(), "stopped") {
            Some(PlayerState::Stopped)
        } else {
            None
        }
    }

    /// Parses a transport-state name, ignoring surrounding white space and letter case.
    pub fn parse(input: &str) -> (r: Option<PlayerState>)
        ensures
            r == parse_spec(input@),
    {
        let chars = chars_of(input);
        let trimmed = trim(chars.as_slice());
        let trimmed_str = string_from_chars(trimmed.as_slice());
        let lower = to_lowercase(trimmed_str.as_str());
        PlayerState::parse_normalized(lower.as_str())
    }

    /// The lowercase name of the state, as it is written in logs and configuration.
    pub fn as_str(&self) -> (r: &'static str)
        ensures
            r@ == player_state_name(*self),
    {
        match self {
            PlayerState::Playing => "playing",
            PlayerState::Paused => "paused",
            PlayerState::Stopped => "stopped",
        }
    }
}

impl Default for PlayerState {
    fn default() -> (r: PlayerState)
        ensures
            r == PlayerState::Stopped,
    {
        PlayerState::Stopped
    }
}

/// Parsing reads back every state's written name (its `Display` text and its JSON value).
pub proof fn law_parse_reads_state_names(p: PlayerState)
    ensures
        parse_spec(player_state_name(p)) == Some(p),
{
    reveal_strlit("playing");
    reveal_strlit("paused");
    reveal_strlit("stopped");
    reveal_strlit("paused_playback");
    let n = player_state_name(p);
    assert(vstd::utf8::is_ascii_chars(n));
    assert(n.len() > 0 && !is_whitespace_spec(n[0]) && !is_whitespace_spec(n.last()));
    lemma_trim_fixed(n);
    assert(trim_spec(n) == n);
    assert(ascii_lower_spec(n) =~= n);
    assert(lowercase_text_spec(trim_spec(n)) == n);
    match p {
        PlayerState::Playing => {},
        PlayerState::Paused => {
            assert(n != "playing"@);
        },
        PlayerState::Stopped => {
            assert(n[0] != "playing"@[0]);
        },
    }
    assert(parse_normalized_spec(n) == Some(p));
}

/// For ASCII text, parsing an input and parsing its trimmed, lowercased text give the same
/// result: the input is read only through that normal form.
pub proof fn law_parse_reads_normal_form(input: Seq<char>)
    requires
        vstd::utf8::is_ascii_chars(input),
    ensures
        parse_spec(input) == parse_spec(ascii_lower_spec(trim_spec(input))),
{
    let t = trim_spec(input);
    lemma_trim_ascii(input);
    lemma_trim_shape(input);
    lemma_ascii_lower_text(t);
    let k = ascii_lower_spec(t);
    if k.len() > 0 {
        assert(is_whitespace_spec(k[0]) == is_whitespace_spec(t[0]));
        assert(is_whitespace_spec(k[k.len() - 1]) == is_whitespace_spec(t[t.len() - 1]));
    }
    lemma_trim_fixed(k);
}

/// For ASCII text, what parsing gives is decided by the trimmed text up to letter case:
/// `playing` is playing; `paused` and `paused_playback` (UPnP's name for a pause) are paused;
/// `stopped` is stopped; anything else is not a state.
pub proof fn law_parse_ascii_names(input: Seq<char>)
    requires
        vstd::utf8::is_ascii_chars(input),
    ensures
        ({
            let k = ascii_lower_spec(trim_spec(input));
            &&& (parse_spec(input) == Some(PlayerState::Playing) <==> k == "playing"@)
            &&& (parse_spec(input) == Some(PlayerState::Paused) <==> (k == "paused"@ || k
                == "paused_playback"@))
            &&& (parse_spec(input) == Some(PlayerState::Stopped) <==> k == "stopped"@)
            &&& (parse_spec(input) is None <==> (k != "playing"@ && k != "paused"@ && k
                != "paused_playback"@ && k != "stopped"@))
        }),
{
    reveal_strlit("playing");
    reveal_strlit("paused");
    reveal_strlit("stopped");
    reveal_strlit("paused_playback");
    lemma_trim_ascii(input);
    let k = ascii_lower_spec(trim_spec(input));
    assert(parse_spec(input) == parse_normalized_spec(k));
    assert("stopped"@[0] != "playing"@[0]);
    assert("paused"@.len() != "playing"@.len());
    assert("paused_playback"@.len() != "playing"@.len());
    assert("paused_playback"@.len() != "stopped"@.len());
    assert("paused"@.len() != "stopped"@.len());
}

/// Parsing ignores white space around the name: the input and its trimmed text parse alike.
pub proof fn law_parse_ignores_surrounding_whitespace(input: Seq<char>)
    ensures
        parse_spec(trim_spec(input)) == parse_spec(input),
{
    lemma_trim_idempotent(input);
}

} // verus!

verus! {

/// The state broadcast to display clients.
#[derive(Debug)]
pub struct UnifiedState {
    pub player_state: PlayerState,
    pub title: Option<String>,
    pub artist: Option<String>,
    pub album: Option<String>,
    pub cover_url: Option<String>,
    pub songid: Option<String>,
}

/// The unified state as plain values.
pub struct UnifiedStateView {
    pub player_state: PlayerState,
    pub title: Option<Seq<char>>,
    pub artist: Option<Seq<char>>,
    pub album: Option<Seq<char>>,
    pub cover_url: Option<Seq<char>>,
    pub songid: Option<Seq<char>>,
}

impl View for UnifiedState {
    type V = UnifiedStateView;

    open spec fn view(&self) -> UnifiedStateView {
        UnifiedStateView {
            player_state: self.player_state,
            title: opt_view(self.title),
            artist: opt_view(self.artist),
            album: opt_view(self.album),
            cover_url: opt_view(self.cover_url),
            songid: opt_view(self.songid),
        }
    }
}

impl Clone for UnifiedState {
    fn clone(&self) -> (r: UnifiedState)
        ensures
            r@ == self@,
    {
        UnifiedState {
            player_state: self.player_state,
            title: clone_opt(&self.title),
            artist: clone_opt(&self.artist),
            album: clone_opt(&self.album),
            cover_url: clone_opt(&self.cover_url),
            songid: clone_opt(&self.songid),
        }
    }
}

/// A stopped state with nothing about a track.
pub open spec fn blank_state(p: PlayerState) -> UnifiedStateView {
    UnifiedStateView {
        player_state: p,
        title: None,
        artist: None,
        album: None,
        cover_url: None,
        songid: None,
    }
}

impl Default for UnifiedState {
    fn default() -> (r: UnifiedState)
        ensures
            r@ == blank_state(PlayerState::Stopped),
    {
        UnifiedState {
            player_state: PlayerState::Stopped,
            title: None,
            artist: None,
            album: None,
            cover_url: None,
            songid: None,
        }
    }
}

/// What a player reports about the current track.
#[derive(Debug)]
pub struct Metadata {
    pub player_state: Option<PlayerState>,
    pub songid: Option<String>,
    pub title: Option<String>,
    pub artist: Option<String>,
    pub album: Option<String>,
    pub cover_url: Option<String>,
}

/// Track metadata as plain values.
pub struct MetadataView {
    pub player_state: Option<PlayerState>,
    pub songid: Option<Seq<char>>,
    pub title: Option<Seq<char>>,
    pub artist: Option<Seq<char>>,
    pub album: Option<Seq<char>>,
    pub cover_url: Option<Seq<char>>,
}

impl View for Metadata {
    type V = MetadataView;

    open spec fn view(&self) -> MetadataView {
        MetadataView {
            player_state: self.player_state,
            songid: opt_view(self.songid),
            title: opt_view(self.title),
            artist: opt_view(self.artist),
            album: opt_view(self.album),
            cover_url: opt_view(self.cover_url),
        }
    }
}

impl Clone for Metadata {
    fn clone(&self) -> (r: Metadata)
        ensures
            r@ == self@,
    {
        Metadata {
            player_state: self.player_state,
            songid: clone_opt(&self.songid),
            title: clone_opt(&self.title),
            artist: clone_opt(&self.artist),
            album: clone_opt(&self.album),
            cover_url: clone_opt(&self.cover_url),
        }
    }
}

impl Default for Metadata {
    fn default() -> (r: Metadata)
        ensures
            r@ == (MetadataView {
                player_state: None,
                songid: None,
                title: None,
                artist: None,
                album: None,
                cover_url: None,
            }),
    {
        Metadata {
            player_state: None,
            songid: None,
            title: None,
            artist: None,
            album: None,
            cover_url: None,
        }
    }
}

} // verus!
