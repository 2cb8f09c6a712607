use apollo_media_state::shairport::{parse_item_nodes, ItemError};
use apollo_media_state::xml::parse_xml;
use apollo_media_state::shairport::{
    airplay_metadata, decode_hex, parse_item_xml, pict_staging_file, transport_state,
    ShairportReader,
};
use apollo_media_state::state::PlayerState;

fn item(code_hex: &str, data: Option<&str>) -> String {
    match data {
        Some(d) => format!(
            "<item><type>636f7265</type><code>{code_hex}</code><length>0</length>\n<data encoding=\"base64\">\n{d}</data></item>"
        ),
        None => format!("<item><type>73736e63</type><code>{code_hex}</code><length>0</length></item>"),
    }
}

#[test]
fn decode_hex_pairs() {
    assert_eq!(decode_hex(b"61736172").unwrap(), b"asar".to_vec());
    assert_eq!(decode_hex(b"FF00a").unwrap(), vec![0xff, 0x00]);
    assert_eq!(decode_hex(b"").unwrap(), Vec::<u8>::new());
    assert_eq!(decode_hex(b"+f").unwrap(), vec![0x0f]);
    assert!(decode_hex(b"6g").is_err());
    assert!(decode_hex(b"-1").is_err());
    assert!(decode_hex(b"zz61").is_err());
}

#[test]
fn transport_codes() {
    assert_eq!(transport_state("prsm"), Some(PlayerState::Playing));
    assert_eq!(transport_state("pend"), Some(PlayerState::Stopped));
    assert_eq!(transport_state("paus"), Some(PlayerState::Paused));
    assert_eq!(transport_state("asar"), None);
}

#[test]
fn parse_item_with_base64_data() {
    let parsed = parse_item_xml(&item("61736172", Some("RGFmdCBQdW5r"))).unwrap();
    assert_eq!(parsed.code, "asar");
    assert_eq!(parsed.value.unwrap(), b"Daft Punk".to_vec());
}

#[test]
fn parse_item_with_plain_or_missing_data() {
    let plain = "<item><code>6d696e6d</code><data> Title </data></item>";
    let parsed = parse_item_xml(plain).unwrap();
    assert_eq!(parsed.code, "minm");
    assert_eq!(parsed.value.unwrap(), b"Title".to_vec());
    let parsed = parse_item_xml(&item("7072736d", None)).unwrap();
    assert_eq!(parsed.code, "prsm");
    assert!(parsed.value.is_none());
    let blank = "<item><code>6d696e6d</code><data encoding=\"base64\">  </data></item>";
    assert!(parse_item_xml(blank).unwrap().value.is_none());
    let bad64 = "<item><code>6d696e6d</code><data encoding=\"base64\">@@@</data></item>";
    assert!(parse_item_xml(bad64).unwrap().value.is_none());
}

#[test]
fn parse_item_errors() {
    assert!(parse_item_xml("<item><code>6d69").is_err());
    assert!(parse_item_xml("<item><code>zz</code></item>").is_err());
}

#[test]
fn buffer_commits_track_once_title_and_artist_arrive() {
    let mut reader = ShairportReader::new();
    let text = format!(
        "junk{}{}{}{}<item><code>61",
        item("6d647374", None),
        item("61736172", Some("RGFmdCBQdW5r")),
        item("7072736d", None),
        item("6d696e6d", Some("T25lIE1vcmUgVGltZQ==")),
    );
    reader.push_chunk(text.as_bytes());
    let out = reader.process_buffer();
    assert_eq!(out.transports, vec![PlayerState::Playing]);
    let track = out.commit.unwrap();
    assert_eq!(track.artist, "Daft Punk");
    assert_eq!(track.title, "One More Time");
    assert_eq!(track.songid, "airplay-Daft Punk-One More Time");
    assert!(track.picture.is_none());
    let again = reader.process_buffer();
    assert!(again.transports.is_empty() && again.commit.is_none());
    reader.push_chunk(b"6d6e</code></item>");
    let out = reader.process_buffer();
    assert!(out.transports.is_empty() && out.commit.is_none());
}

#[test]
fn buffer_keeps_partial_items_across_chunks() {
    let mut reader = ShairportReader::new();
    let full = item("70617573", None);
    let (a, b) = full.split_at(20);
    reader.push_chunk(a.as_bytes());
    assert!(reader.process_buffer().transports.is_empty());
    reader.push_chunk(b.as_bytes());
    assert_eq!(reader.process_buffer().transports, vec![PlayerState::Paused]);
}

#[test]
fn metadata_start_clears_staged_values() {
    let mut reader = ShairportReader::new();
    let text = format!(
        "{}{}{}",
        item("61736172", Some("RGFmdCBQdW5r")),
        item("6d647374", None),
        item("6d696e6d", Some("T25lIE1vcmUgVGltZQ==")),
    );
    reader.push_chunk(text.as_bytes());
    assert!(reader.process_buffer().commit.is_none());
}

#[test]
fn picture_is_committed_with_the_track() {
    let mut reader = ShairportReader::new();
    let text = format!(
        "{}{}{}",
        item("50494354", Some("iVBOR2RhdGE=")),
        item("61736172", Some("RGFmdCBQdW5r")),
        item("6d696e6d", Some("T25lIE1vcmUgVGltZQ==")),
    );
    reader.push_chunk(text.as_bytes());
    let track = reader.process_buffer().commit.unwrap();
    assert_eq!(track.picture.as_deref(), Some(&b"\x89PNGdata"[..]));
}

#[test]
fn unknown_codes_and_malformed_items_are_skipped() {
    let mut reader = ShairportReader::new();
    let text = format!("{}<item><code>zz</code></item>{}", item("73736e63", None), item("70656e64", None));
    reader.push_chunk(text.as_bytes());
    let out = reader.process_buffer();
    assert_eq!(out.transports, vec![PlayerState::Stopped]);
}

#[test]
fn clearing_the_buffer_drops_text() {
    let mut reader = ShairportReader::new();
    reader.push_chunk(b"<item><code>7072");
    reader.clear_buffer();
    reader.push_chunk(b"736d</code></item>");
    assert!(reader.process_buffer().transports.is_empty());
}

#[test]
fn pict_staging_file_names() {
    let f = pict_staging_file("/tmp/shairport_art_cache", "airplay-Daft Punk-One More Time");
    assert_eq!(f.path, "/tmp/shairport_art_cache/fa3872703350d462fdffff7600af9344.tmp");
    assert_eq!(f.url, "file:///tmp/shairport_art_cache/fa3872703350d462fdffff7600af9344.tmp");
}

#[test]
fn airplay_metadata_has_no_album() {
    let mut reader = ShairportReader::new();
    let text = format!(
        "{}{}",
        item("61736172", Some("RGFmdCBQdW5r")),
        item("6d696e6d", Some("T25lIE1vcmUgVGltZQ==")),
    );
    reader.push_chunk(text.as_bytes());
    let track = reader.process_buffer().commit.unwrap();
    let m = airplay_metadata(&track, Some("file:///x".to_string()));
    assert_eq!(m.songid.as_deref(), Some("airplay-Daft Punk-One More Time"));
    assert_eq!(m.artist.as_deref(), Some("Daft Punk"));
    assert_eq!(m.title.as_deref(), Some("One More Time"));
    assert!(m.album.is_none() && m.player_state.is_none());
    assert_eq!(m.cover_url.as_deref(), Some("file:///x"));
}

#[test]
fn item_nodes_decode_like_item_text() {
    let nodes = parse_xml(&item("6d64656e", Some("AAE="))).unwrap();
    let parsed = parse_item_nodes(&nodes).unwrap();
    assert_eq!(parsed.code, "mden");
    assert_eq!(parsed.value.unwrap(), vec![0, 1]);
    let bad = parse_xml("<item><code>q</code><code>61</code></item>").unwrap();
    assert!(parse_item_nodes(&bad).is_ok());
    let bad = parse_xml("<item><code>qq</code></item>").unwrap();
    assert!(matches!(parse_item_nodes(&bad), Err(ItemError::Hex)));
}

#[test]
fn hex_round_trip_and_length() {
    let bytes: Vec<u8> = vec![0, 1, 0x7f, 0x80, 0xab, 0xff];
    let lower: String = bytes.iter().map(|b| format!("{b:02x}")).collect();
    let upper: String = bytes.iter().map(|b| format!("{b:02X}")).collect();
    assert_eq!(decode_hex(lower.as_bytes()).unwrap(), bytes);
    assert_eq!(decode_hex(upper.as_bytes()).unwrap(), bytes);
    assert_eq!(decode_hex(b"6d64656e7").unwrap().len(), 4);
}
