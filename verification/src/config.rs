//! Service configuration: its shape, the built-in defaults, and where the file is looked for.
use vstd::prelude::*;

use crate::state::PlayerState;
use crate::text::{chars_of, path_join, path_join_spec, string_from_chars};

verus! {

/// Name of the configuration directory under the XDG config home.
pub const CONFIG_APP_DIR: &'static str = "apollo";

/// Name of the configuration file.
pub const CONFIG_FILE_NAME: &'static str = "server.toml";

/// The whole configuration.
#[derive(Clone, Debug)]
pub struct AppConfig {
    pub server: ServerConfig,
    pub players: PlayersConfig,
}

/// Where the service listens and caches art.
#[derive(Clone, Debug)]
pub struct ServerConfig {
    pub host: String,
    pub web_port: u16,
    pub tcp_port: u16,
    pub art_cache_dir: String,
}

/// The configuration of each player source.
#[derive(Clone, Debug)]
pub struct PlayersConfig {
    pub shairport: ShairportConfig,
    pub upnp: UpnpConfig,
    pub sendspin: SendspinConfig,
    pub mock: MockConfig,
}

/// Shairport Sync metadata pipe.
#[derive(Clone, Debug)]
pub struct ShairportConfig {
    pub enabled: bool,
    pub pipe_path: String,
    pub art_staging_dir: String,
    pub retry_secs: u64,
}

/// UPnP/OpenHome renderer.
#[derive(Clone, Debug)]
pub struct UpnpConfig {
    pub enabled: bool,
    pub renderer_name: String,
    pub search_retry_secs: u64,
    pub resubscribe_secs: u64,
}

/// Sendspin server.
#[derive(Clone, Debug)]
pub struct SendspinConfig {
    pub enabled: bool,
    pub server: String,
    pub client_id: String,
    pub name: String,
}

/// The mock player, which cycles through configured tracks.
#[derive(Clone, Debug)]
pub struct MockConfig {
    pub enabled: bool,
    pub interval_secs: u64,
    pub tracks: Vec<MockTrackConfig>,
}

/// One track of the mock player.
#[derive(Clone, Debug)]
pub struct MockTrackConfig {
    pub player_state: PlayerState,
    pub artist: String,
    pub album: String,
    pub title: String,
    pub songid: String,
    pub cover_url: Option<String>,
}

/// The built-in server settings.
pub open spec fn is_default_server(s: ServerConfig) -> bool {
    &&& s.host@ == "0.0.0.0"@
    &&& s.web_port == 5556
    &&& s.tcp_port == 5557
    &&& s.art_cache_dir@ == "/tmp/art_cache"@
}

/// The built-in Shairport settings (disabled).
pub open spec fn is_default_shairport(s: ShairportConfig) -> bool {
    &&& !s.enabled
    &&& s.pipe_path@ == "/tmp/shairport-sync-metadata"@
    &&& s.art_staging_dir@ == "/tmp/shairport_art_cache"@
    &&& s.retry_secs == 5
}

/// The built-in UPnP settings (disabled).
pub open spec fn is_default_upnp(s: UpnpConfig) -> bool {
    &&& !s.enabled
    &&& s.renderer_name@ == "Apollo UPNP"@
    &&& s.search_retry_secs == 15
    &&& s.resubscribe_secs == 1200
}

/// The built-in Sendspin settings (disabled).
pub open spec fn is_default_sendspin(s: SendspinConfig) -> bool {
    &&& !s.enabled
    &&& s.server@ == "pluto:8095"@
    &&& s.client_id@ == "apollo-server"@
    &&& s.name@ == "Apollo Server"@
}

/// The built-in mock player: disabled, eight seconds per track, three demo tracks.
pub open spec fn is_default_mock(m: MockConfig) -> bool {
    &&& !m.enabled
    &&& m.interval_secs == 8
    &&& m.tracks@.len() == 3
    &&& is_mock_track(
        m.tracks@[0],
        PlayerState::Playing,
        "Daft Punk"@,
        "Discovery"@,
        "One More Time"@,
        "101"@,
    )
    &&& is_mock_track(
        m.tracks@[1],
        PlayerState::Paused,
        "Daft Punk"@,
        "Discovery"@,
        "One More Time"@,
        "101"@,
    )
    &&& is_mock_track(
        m.tracks@[2],
        PlayerState::Playing,
        "Gorillaz"@,
        "Demon Days"@,
        "Feel Good Inc"@,
        "102"@,
    )
}

/// The built-in settings of all players.
pub open spec fn is_default_players(p: PlayersConfig) -> bool {
    &&& is_default_shairport(p.shairport)
    &&& is_default_upnp(p.upnp)
    &&& is_default_sendspin(p.sendspin)
    &&& is_default_mock(p.mock)
}

fn owned(s: &str) -> (r: String)
    ensures
        r@ == s@,
{
    let c = chars_of(s);
    string_from_chars(c.as_slice())
}

impl Default for ServerConfig {
    fn default() -> (r: ServerConfig)
        ensures
            is_default_server(r),
    {
        ServerConfig {
            host: owned("0.0.0.0"),
            web_port: 5556,
            tcp_port: 5557,
            art_cache_dir: owned("/tmp/art_cache"),
        }
    }
}

impl Default for ShairportConfig {
    fn default() -> (r: ShairportConfig)
        ensures
            is_default_shairport(r),
    {
        ShairportConfig {
            enabled: false,
            pipe_path: owned("/tmp/shairport-sync-metadata"),
            art_staging_dir: owned("/tmp/shairport_art_cache"),
            retry_secs: 5,
        }
    }
}

impl Default for UpnpConfig {
    fn default() -> (r: UpnpConfig)
        ensures
            is_default_upnp(r),
    {
        UpnpConfig {
            enabled: false,
            renderer_name: owned("Apollo UPNP"),
            search_retry_secs: 15,
            resubscribe_secs: 20 * 60,
        }
    }
}

impl Default for SendspinConfig {
    fn default() -> (r: SendspinConfig)
        ensures
            is_default_sendspin(r),
    {
        SendspinConfig {
            enabled: false,
            server: owned("pluto:8095"),
            client_id: owned("apollo-server"),
            name: owned("Apollo Server"),
        }
    }
}

/// Whether a mock track has the given fields and no cover.
pub open spec fn is_mock_track(
    t: MockTrackConfig,
    state: PlayerState,
    artist: Seq<char>,
    album: Seq<char>,
    title: Seq<char>,
    songid: Seq<char>,
) -> bool {
    &&& t.player_state == state
    &&& t.artist@ == artist
    &&& t.album@ == album
    &&& t.title@ == title
    &&& t.songid@ == songid
    &&& t.cover_url is None
}

fn mock_track(
    state: PlayerState,
    artist: &str,
    album: &str,
    title: &str,
    songid: &str,
) -> (r: MockTrackConfig)
    ensures
        is_mock_track(r, state, artist@, album@, title@, songid@),
{
    MockTrackConfig {
        player_state: state,
        artist: owned(artist),
        album: owned(album),
        title: owned(title),
        songid: owned(songid),
        cover_url: None,
    }
}

impl Default for MockConfig {
    fn default() -> (r: MockConfig)
        ensures
            is_default_mock(r),
    {
        let mut tracks: Vec<MockTrackConfig> = Vec::new();
        tracks.push(
            mock_track(PlayerState::Playing, "Daft Punk", "Discovery", "One More Time", "101"),
        );
        tracks.push(
            mock_track(PlayerState::Paused, "Daft Punk", "Discovery", "One More Time", "101"),
        );
        tracks.push(
            mock_track(PlayerState::Playing, "Gorillaz", "Demon Days", "Feel Good Inc", "102"),
        );
        MockConfig { enabled: false, interval_secs: 8, tracks }
    }
}

impl Default for MockTrackConfig {
    fn default() -> (r: MockTrackConfig)
        ensures
            is_mock_track(r, PlayerState::Playing, Seq::empty(), Seq::empty(), Seq::empty(), Seq::empty()),
    {
        MockTrackConfig {
            player_state: PlayerState::Playing,
            artist: String::new(),
            album: String::new(),
            title: String::new(),
            songid: String::new(),
            cover_url: None,
        }
    }
}

impl Default for PlayersConfig {
    fn default() -> (r: PlayersConfig)
        ensures
            is_default_players(r),
    {
        PlayersConfig {
            shairport: ShairportConfig::default(),
            upnp: UpnpConfig::default(),
            sendspin: SendspinConfig::default(),
            mock: MockConfig::default(),
        }
    }
}

impl Default for AppConfig {
    fn default() -> (r: AppConfig)
        ensures
            is_default_server(r.server),
            is_default_players(r.players),
    {
        AppConfig { server: ServerConfig::default(), players: PlayersConfig::default() }
    }
}

/// The configuration home: `XDG_CONFIG_HOME` when set and not empty, else `$HOME/.config`
/// when `HOME` is set and not empty, else `.config`.
pub open spec fn config_home_spec(xdg_config_home: Option<Seq<char>>, home: Option<Seq<char>>) -> Seq<char> {
    match xdg_config_home {
        Some(x) if x.len() > 0 => x,
        _ => match home {
            Some(h) if h.len() > 0 => path_join_spec(h, ".config"@),
            _ => ".config"@,
        },
    }
}

/// The default configuration file under a configuration home.
pub open spec fn default_config_path_spec(
    xdg_config_home: Option<Seq<char>>,
    home: Option<Seq<char>>,
) -> Seq<char> {
    path_join_spec(
        path_join_spec(config_home_spec(xdg_config_home, home), "apollo"@),
        "server.toml"@,
    )
}

fn nonempty(s: &String) -> (r: bool)
    ensures
        r == (s@.len() > 0),
{
    chars_of(s.as_str()).len() > 0
}

/// The default location of the configuration file, given the values of the
/// `XDG_CONFIG_HOME` and `HOME` environment variables.
pub fn default_config_path(xdg_config_home: Option<String>, home: Option<String>) -> (r: String)
    ensures
        r@ == default_config_path_spec(
            crate::text::opt_view(xdg_config_home),
            crate::text::opt_view(home),
        ),
{
    let base: String = match xdg_config_home {
        Some(x) if nonempty(&x) => x,
        _ => match home {
            Some(h) if nonempty(&h) => {
                let dot = chars_of(".config");
                path_join(h.as_str(), dot.as_slice())
            },
            _ => owned(".config"),
        },
    };
    let app = chars_of(CONFIG_APP_DIR);
    let dir = path_join(base.as_str(), app.as_slice());
    let file = chars_of(CONFIG_FILE_NAME);
    path_join(dir.as_str(), file.as_slice())
}

/// The configuration file to read: the one the `APOLLO_CONFIG` environment variable names
/// when it is set (even to an empty text), else the default location.
pub fn config_path(
    explicit_path: Option<String>,
    xdg_config_home: Option<String>,
    home: Option<String>,
) -> (r: String)
    ensures
        r@ == match explicit_path {
            Some(p) => p@,
            None => default_config_path_spec(
                crate::text::opt_view(xdg_config_home),
                crate::text::opt_view(home),
            ),
        },
{
    match explicit_path {
        Some(p) => p,
        None => default_config_path(xdg_config_home, home),
    }
}

/// What loading the configuration does once it is known whether the chosen file exists.
#[derive(Debug, PartialEq, Eq, Structural)]
pub enum ConfigPlan {
    /// The file exists: read and parse it.
    ReadFile,
    /// The file `APOLLO_CONFIG` names does not exist: loading fails.
    MissingExplicitFile,
    /// The default file does not exist: the built-in defaults are used.
    BuiltInDefaults,
}

/// Decides how the configuration is loaded: an existing file is read; a missing file is an
/// error when it was named explicitly, and means the built-in defaults otherwise.
pub fn config_plan(explicit: bool, file_exists: bool) -> (r: ConfigPlan)
    ensures
        file_exists ==> r == ConfigPlan::ReadFile,
        !file_exists && explicit ==> r == ConfigPlan::MissingExplicitFile,
        !file_exists && !explicit ==> r == ConfigPlan::BuiltInDefaults,
{
    if file_exists {
        ConfigPlan::ReadFile
    } else if explicit {
        ConfigPlan::MissingExplicitFile
    } else {
        ConfigPlan::BuiltInDefaults
    }
}

} // verus!

verus! {

/// Wherever the configuration home is, the default configuration file is
/// `apollo/server.toml` inside it.
pub proof fn law_default_config_path_names_app_file(
    xdg_config_home: Option<Seq<char>>,
    home: Option<Seq<char>>,
)
    ensures
        ({
            let p = default_config_path_spec(xdg_config_home, home);
            &&& p.len() >= 18
            &&& p.skip(p.len() - 18) == "apollo/server.toml"@
        }),
{
    reveal_strlit("apollo");
    reveal_strlit("server.toml");
    reveal_strlit("apollo/server.toml");
    let h = config_home_spec(xdg_config_home, home);
    let x = path_join_spec(h, "apollo"@);
    let hp = if h.len() == 0 || h.last() == '/' { h } else { h.push('/') };
    assert(x == hp + "apollo"@);
    assert(x.last() == 'o');
    let p = default_config_path_spec(xdg_config_home, home);
    assert(p == x.push('/') + "server.toml"@);
    assert(p.skip(p.len() - 18) =~= "apollo/server.toml"@);
}

} // verus!
