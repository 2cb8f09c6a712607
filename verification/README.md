# Apollo media state service

A media state aggregator for the Apollo LED panel client. It listens to music player
sources (Shairport Sync/AirPlay, UPnP/OpenHome, Sendspin, and a mock player), merges what
they report into one state, caches album art as 128×128 JPEG thumbnails, and broadcasts
the state to display clients over TCP as a 4-byte big-endian length followed by JSON.

## Layout

- `src/` — the library, verified with Verus:
  - `state.rs` — player states and the unified state;
  - `session.rs` — the session state machine: when a report changes the state, when it
    is broadcast, when album art has to be made, and the laws these rules keep;
  - `art.rs` — art cache naming (MD5 of the cover source) and thumbnail rendering (which image steps are applied, and when it fails);
  - `framing.rs` — the TCP framing, the replay of the latest frame, the client loop's
    decisions;
  - `config.rs` — configuration shape, built-in defaults, default file location;
  - `xml.rs` — parsed XML documents as node lists, and the lookups the parsers make;
  - `shairport.rs`, `sendspin.rs`, `upnp.rs`, `mock.rs` — the player protocols;
  - `text.rs` — character-level helpers (trimming, searching, decimal and path text).
- `app/` — the service around the library: configuration file and environment, the TCP
  and web servers, the players' network and pipe I/O, and the async plumbing.
- `tests/` — tests of the library on concrete values.
