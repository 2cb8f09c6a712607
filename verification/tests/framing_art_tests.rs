use apollo_media_state::art::{art_paths, art_relative_url, cover_source, render_thumbnail, CoverSource, ThumbnailError};
use apollo_media_state::framing::{client_step, frame_message, Broadcaster, ClientAction, ClientEvent};

#[test]
fn frame_has_big_endian_length_prefix() {
    let payload = br#"{"player_state":"playing"}"#;
    let frame = frame_message(payload);
    assert_eq!(frame.len(), payload.len() + 4);
    assert_eq!(&frame[..4], &(payload.len() as u32).to_be_bytes());
    assert_eq!(&frame[4..], payload);
}

#[test]
fn frame_of_long_payload() {
    let payload = vec![7u8; 0x1_0203];
    let frame = frame_message(&payload);
    assert_eq!(&frame[..4], &[0, 1, 2, 3]);
    assert_eq!(frame_message(&[]), vec![0, 0, 0, 0]);
}

#[test]
fn new_client_gets_last_published_frame() {
    let mut b = Broadcaster::new();
    assert!(b.greeting().is_none());
    b.publish(b"first");
    let second = b.publish(b"second");
    assert_eq!(b.greeting(), Some(second.clone()));
    assert_eq!(&second[4..], b"second");
}

#[test]
fn client_loop_decisions() {
    assert!(matches!(client_step(ClientEvent::KeepaliveRead(0)), ClientAction::Close));
    assert!(matches!(client_step(ClientEvent::KeepaliveRead(5)), ClientAction::Continue));
    assert!(matches!(client_step(ClientEvent::Lagged), ClientAction::Continue));
    assert!(matches!(client_step(ClientEvent::Closed), ClientAction::Close));
    match client_step(ClientEvent::Message(vec![1, 2])) {
        ClientAction::Write(m) => assert_eq!(m, vec![1, 2]),
        _ => panic!("expected a write"),
    }
}

#[test]
fn art_cache_names_follow_md5_of_source() {
    let p = art_paths("/tmp/art_cache", "http://example.com/cover.jpg");
    assert_eq!(p.relative_url, "/art/826af14755675e77e3f0a75cc1fb43d9.jpg");
    assert_eq!(p.cache_path, "/tmp/art_cache/826af14755675e77e3f0a75cc1fb43d9.jpg");
    let p = art_paths("/tmp/art_cache/", "");
    assert_eq!(p.cache_path, "/tmp/art_cache/d41d8cd98f00b204e9800998ecf8427e.jpg");
    assert_eq!(art_relative_url(""), "/art/d41d8cd98f00b204e9800998ecf8427e.jpg");
}

#[test]
fn cover_sources_are_classified() {
    match cover_source("file:///tmp/a.tmp") {
        CoverSource::LocalFile(p) => assert_eq!(p, "/tmp/a.tmp"),
        other => panic!("unexpected {other:?}"),
    }
    match cover_source("https://x/y.jpg") {
        CoverSource::Web(u) => assert_eq!(u, "https://x/y.jpg"),
        other => panic!("unexpected {other:?}"),
    }
    assert!(matches!(cover_source("ftp://x"), CoverSource::Unsupported));
    assert!(matches!(cover_source("file:/x"), CoverSource::Unsupported));
}

#[test]
fn thumbnail_is_a_128_square_jpeg() {
    let mut png = Vec::new();
    let img = image::RgbImage::from_pixel(3, 5, image::Rgb([200, 10, 10]));
    image::DynamicImage::ImageRgb8(img)
        .write_to(std::io::Cursor::new(&mut png), image::ImageFormat::Png)
        .unwrap();
    let jpeg = render_thumbnail(&png).unwrap();
    let decoded = image::load_from_memory(&jpeg).unwrap();
    assert_eq!(image::guess_format(&jpeg).unwrap(), image::ImageFormat::Jpeg);
    assert_eq!((decoded.width(), decoded.height()), (128, 128));
}

#[test]
fn thumbnail_of_garbage_fails_to_decode() {
    assert!(matches!(render_thumbnail(b"not an image"), Err(ThumbnailError::Decode)));
}

#[test]
fn art_file_names_are_32_lowercase_hex_digits() {
    let paths = art_paths("/cache", "http://host/Cover Art.PNG");
    let name = paths.relative_url.strip_prefix("/art/").unwrap().strip_suffix(".jpg").unwrap();
    assert_eq!(name.len(), 32);
    assert!(name.chars().all(|c| c.is_ascii_digit() || ('a'..='f').contains(&c)));
    assert_eq!(paths.cache_path, format!("/cache/{name}.jpg"));
}
