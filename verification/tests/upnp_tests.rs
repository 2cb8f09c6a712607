use apollo_media_state::upnp::{event_vars_from_nodes, track_metadata_from_nodes};
use apollo_media_state::xml::{find_named, parse_xml};
use apollo_media_state::state::PlayerState;
use apollo_media_state::upnp::{
    add_location, callback_url, location_host, event_source_name, header_value, parse_device_description,
    parse_event_vars, parse_location, parse_track_metadata, process_event, renewed_sid,
    upnp_event_from_request, DeviceError, INFO_SERVICE_ID, PLAYLIST_SERVICE_ID,
};

const DIDL: &str = r#"<DIDL-Lite xmlns="urn:schemas-upnp-org:metadata-1-0/DIDL-Lite/" xmlns:dc="http://purl.org/dc/elements/1.1/" xmlns:upnp="urn:schemas-upnp-org:metadata-1-0/upnp/"><item id="track-42" parentID="0"><dc:title>Song</dc:title><upnp:artist>Band</upnp:artist><upnp:albumArtURI>http://192.168.1.2/art.jpg</upnp:albumArtURI></item></DIDL-Lite>"#;

fn event_body(vars: &str) -> String {
    format!(r#"<?xml version="1.0"?><e:propertyset xmlns:e="urn:schemas-upnp-org:event-1-0">{vars}</e:propertyset>"#)
}

#[test]
fn source_names() {
    assert_eq!(event_source_name(INFO_SERVICE_ID), "info");
    assert_eq!(event_source_name(PLAYLIST_SERVICE_ID), "playlist");
    assert_eq!(event_source_name("anything"), "playlist");
}

#[test]
fn callback_urls() {
    assert_eq!(
        callback_url("192.168.1.10", 5556, INFO_SERVICE_ID),
        "http://192.168.1.10:5556/upnp/events/info"
    );
    assert_eq!(callback_url("127.0.0.1", 80, PLAYLIST_SERVICE_ID), "http://127.0.0.1:80/upnp/events/playlist");
}

#[test]
fn sid_renewal_keeps_old_sid_when_none_given() {
    assert_eq!(renewed_sid(None, &"uuid:1".to_string()), "uuid:1");
    assert_eq!(renewed_sid(Some("uuid:2".to_string()), &"uuid:1".to_string()), "uuid:2");
}

#[test]
fn header_lookup() {
    let response = "HTTP/1.1 200 OK\r\nCACHE-CONTROL: max-age=1800\r\nLOCATION:  http://192.168.1.5:49152/description.xml \r\nST: ssdp:all\r\n\r\n";
    assert_eq!(header_value(response, "location").as_deref(), Some("http://192.168.1.5:49152/description.xml"));
    assert_eq!(header_value(response, "st").as_deref(), Some("ssdp:all"));
    assert_eq!(header_value(response, "server"), None);
    assert_eq!(header_value("a: 1\nA: 2", "a").as_deref(), Some("1"));
    assert_eq!(header_value("x\nLoc: y:z", "loc").as_deref(), Some("y:z"));
}

#[test]
fn locations_are_deduplicated() {
    let mut locations = Vec::new();
    add_location(&mut locations, "LOCATION: http://a/1.xml\r\n");
    add_location(&mut locations, "location: http://a/1.xml\r\n");
    add_location(&mut locations, "Location: http://b/2.xml\r\n");
    add_location(&mut locations, "NT: none\r\n");
    assert_eq!(locations, vec!["http://a/1.xml".to_string(), "http://b/2.xml".to_string()]);
}

#[test]
fn event_vars_later_values_win() {
    let body = event_body("<e:property><TransportState>PAUSED_PLAYBACK</TransportState></e:property><e:property><TransportState>PLAYING</TransportState><Empty/></e:property>");
    let vars = parse_event_vars(&body).unwrap();
    assert_eq!(vars.get("TransportState").as_deref(), Some("PLAYING"));
    assert_eq!(vars.get("Empty").as_deref(), Some(""));
    assert!(vars.get("Metadata").is_none());
    assert!(parse_event_vars("<unclosed>").is_err());
}

#[test]
fn track_metadata_from_didl() {
    let m = parse_track_metadata(DIDL).unwrap();
    assert_eq!(m.title.as_deref(), Some("Song"));
    assert_eq!(m.artist.as_deref(), Some("Band"));
    assert_eq!(m.cover_url.as_deref(), Some("http://192.168.1.2/art.jpg"));
    assert_eq!(m.songid.as_deref(), Some("track-42"));
    assert!(m.album.is_none() && m.player_state.is_none());
    let blank = parse_track_metadata("  \n ").unwrap();
    assert!(blank.songid.is_none() && blank.title.is_none());
    assert!(parse_track_metadata("<broken").is_err());
}

#[test]
fn events_report_transport_and_metadata() {
    let escaped = DIDL.replace('&', "&amp;").replace('<', "&lt;").replace('>', "&gt;");
    let body = event_body(&format!(
        "<e:property><TransportState> Playing </TransportState></e:property><e:property><Metadata>{escaped}</Metadata></e:property>"
    ));
    let report = process_event(&body);
    assert_eq!(report.transport, Some(PlayerState::Playing));
    assert_eq!(report.metadata.unwrap().songid.as_deref(), Some("track-42"));
    let unknown = process_event(&event_body("<e:property><TransportState>TRANSITIONING</TransportState></e:property>"));
    assert!(unknown.transport.is_none() && unknown.metadata.is_none());
    let broken = process_event("not xml");
    assert!(broken.transport.is_none() && broken.metadata.is_none());
}

#[test]
fn device_description_for_named_renderer() {
    let xml = format!(
        r#"<root xmlns="urn:schemas-upnp-org:device-1-0"><device><friendlyName>apollo upnp</friendlyName><serviceList>
<service><serviceType>x</serviceType><serviceId>{INFO_SERVICE_ID}</serviceId><eventSubURL>/info/event</eventSubURL></service>
<service><serviceId>urn:other</serviceId><eventSubURL>/other</eventSubURL></service>
<service><serviceId>{PLAYLIST_SERVICE_ID}</serviceId></service>
<service><serviceId>{PLAYLIST_SERVICE_ID}</serviceId><eventSubURL>http://10.0.0.9/pl</eventSubURL></service>
</serviceList></device></root>"#
    );
    let location = parse_location("http://192.168.1.5:49152/desc/description.xml").unwrap();
    let device = parse_device_description(&location, &xml, "Apollo UPNP").unwrap().unwrap();
    assert_eq!(device.location, "http://192.168.1.5:49152/desc/description.xml");
    assert_eq!(device.services.len(), 2);
    assert_eq!(device.services[0].service_id, INFO_SERVICE_ID);
    assert_eq!(device.services[0].event_sub_url, "http://192.168.1.5:49152/info/event");
    assert_eq!(device.services[1].service_id, PLAYLIST_SERVICE_ID);
    assert_eq!(device.services[1].event_sub_url, "http://10.0.0.9/pl");
    assert!(parse_device_description(&location, &xml, "Other").unwrap().is_none());
    assert!(matches!(parse_device_description(&location, "<x", "Other"), Err(DeviceError::Xml)));
}

#[test]
fn unparsable_locations_are_skipped() {
    assert!(parse_location("not a url").is_none());
    assert_eq!(parse_location("HTTP://Example.com").as_deref(), Some("http://example.com/"));
}

#[test]
fn web_events_decode_body_lossily() {
    let e = upnp_event_from_request("info".to_string(), b"ab\xffc");
    assert_eq!(e.source, "info");
    assert_eq!(e.body, "ab\u{fffd}c");
}

#[test]
fn node_level_parsers_match_text_level_ones() {
    let nodes = parse_xml(DIDL).unwrap();
    assert!(find_named(&nodes, "title").is_some());
    let m = track_metadata_from_nodes(&nodes);
    assert_eq!(m.songid.as_deref(), Some("track-42"));
    let body = event_body("<e:property><Volume>10</Volume></e:property>");
    let vars = event_vars_from_nodes(&parse_xml(&body).unwrap());
    assert_eq!(vars.get("Volume").as_deref(), Some("10"));
}

#[test]
fn location_hosts() {
    assert_eq!(location_host("http://192.168.1.20:49152/desc.xml").as_deref(), Some("192.168.1.20"));
    assert_eq!(location_host("http://Renderer.local/x").as_deref(), Some("renderer.local"));
    assert!(location_host("not a url").is_none());
}
