use std::io::{Cursor, Read};

use base64::Engine;
use playterm::cache::{resolve_stream_source, CacheEntry, StreamSource, TrackCache};
use playterm::kitty::{
    clear_art_strip, clear_image, display_image, image_escape, kitty_query_answered, placeholder_row, render_art_strip, render_image,
    strip_slot_escape,
};
use playterm::layout::Rect;
use playterm::models::SubsonicError;
use playterm::subsonic::{make_token, response_field, ApiCall, SubsonicClient};

fn rect(x: u16, y: u16, width: u16, height: u16) -> Rect {
    Rect { x, y, width, height }
}

fn tiny_png() -> Vec<u8> {
    let img = image::RgbaImage::from_pixel(2, 2, image::Rgba([200, 10, 30, 255]));
    let mut out = Cursor::new(Vec::new());
    img.write_to(&mut out, image::ImageFormat::Png).unwrap();
    out.into_inner()
}

/// The base64 payload between the first `;` after `q=2` and the closing `ESC \`.
fn payload_of(seq: &str) -> String {
    let start = seq.find("q=2;").unwrap() + 4;
    let end = seq[start..].find('\x1b').unwrap() + start;
    seq[start..end].to_string()
}

fn inflate(b64: &str) -> Vec<u8> {
    let z = base64::engine::general_purpose::STANDARD.decode(b64).unwrap();
    let mut out = Vec::new();
    flate2::read::ZlibDecoder::new(&z[..]).read_to_end(&mut out).unwrap();
    out
}

#[test]
fn clear_sequences() {
    assert_eq!(clear_image(false), "\x1b_Ga=d,d=A,q=2\x1b\\");
    assert_eq!(clear_image(true), "\x1bPtmux;\x1b\x1b_Ga=d,d=i,i=1,q=2\x1b\x1b\\\x1b\\");
    let strip = clear_art_strip(false);
    assert!(strip.starts_with("\x1b_Ga=d,d=I,i=100,q=2\x1b\\\x1b_Ga=d,d=I,i=101,q=2\x1b\\"));
    assert!(strip.ends_with("\x1b_Ga=d,d=I,i=115,q=2\x1b\\"));
    assert_eq!(strip.matches("\x1b_G").count(), 16);
    let tmux = clear_art_strip(true);
    assert!(tmux.starts_with("\x1bPtmux;\x1b\x1b_Ga=d,d=i,i=100,q=2\x1b\x1b\\\x1b\\"));
    assert_eq!(tmux.matches("Ptmux;").count(), 16);
}

#[test]
fn cover_escape_direct() {
    let s = image_escape(2, 3, "QUJD", rect(0, 0, 4, 4), false, 0);
    assert_eq!(s, "\x1b[2;2H\x1b_Ga=T,f=32,i=1,s=2,v=3,c=2,r=2,o=z,m=0,q=2;QUJD\x1b\\");
    assert_eq!(image_escape(2, 3, "QUJD", rect(0, 0, 2, 9), false, 0), "");
}

#[test]
fn cover_escape_chunks() {
    let payload = "A".repeat(5000);
    let s = image_escape(1, 1, &payload, rect(3, 4, 10, 10), false, 0);
    let first = format!(
        "\x1b[6;5H\x1b_Ga=T,f=32,i=1,s=1,v=1,c=8,r=8,o=z,m=1,q=2;{}\x1b\\",
        "A".repeat(4096)
    );
    let second = format!("\x1b_Gm=0;{}\x1b\\", "A".repeat(904));
    assert_eq!(s, format!("{first}{second}"));
}

#[test]
fn cover_escape_tmux() {
    let s = image_escape(2, 3, "QUJD", rect(0, 0, 4, 4), true, 1);
    let expected = format!(
        "{}{}{}\x1b[2;1H{}\x1b[3;1H{}",
        "\x1bPtmux;\x1b\x1b_Ga=d,d=i,i=1,q=2\x1b\x1b\\\x1b\\",
        "\x1bPtmux;\x1b\x1b_Ga=t,f=32,i=1,s=2,v=3,o=z,m=0,q=2;QUJD\x1b\x1b\\\x1b\\",
        "\x1bPtmux;\x1b\x1b_Ga=p,U=1,i=1,c=2,r=2,q=2\x1b\x1b\\\x1b\\",
        placeholder_row(2, 1, 0),
        placeholder_row(2, 1, 1),
    );
    assert_eq!(s, expected);
}

#[test]
fn cover_from_image_bytes() {
    assert_eq!(render_image(b"anything", rect(0, 0, 2, 2), false, 0), Ok(String::new()));
    assert!(render_image(b"not an image", rect(0, 0, 4, 4), false, 0).is_err());
    let s = render_image(&tiny_png(), rect(0, 0, 4, 4), false, 0).unwrap();
    assert!(s.starts_with("\x1b[2;2H\x1b_Ga=T,f=32,i=1,s=20,v=20,c=2,r=2,o=z,m=0,q=2;"));
    assert!(s.ends_with("\x1b\\"));
    let raw = inflate(&payload_of(&s));
    assert_eq!(raw.len(), 20 * 20 * 4);
}

#[test]
fn strip_slot_sequences() {
    let s = strip_slot_escape(100, 2, 2, "QUJD", 4, 2, 3, 5, false);
    assert_eq!(
        s,
        "\x1b_Ga=t,f=32,i=100,s=2,v=2,o=z,m=0,q=2;QUJD\x1b\\\x1b[6;4H\x1b_Ga=p,i=100,p=1,c=4,r=2,q=2;\x1b\\"
    );
    let t = strip_slot_escape(101, 2, 2, "QUJD", 4, 2, 3, 5, true);
    let expected = format!(
        "{}{}\x1b[6;4H{}\x1b[7;4H{}",
        "\x1bPtmux;\x1b\x1b_Ga=t,f=32,i=101,s=2,v=2,o=z,m=0,q=2;QUJD\x1b\x1b\\\x1b\\",
        "\x1bPtmux;\x1b\x1b_Ga=p,U=1,i=101,c=4,r=2,q=2\x1b\x1b\\\x1b\\",
        placeholder_row(4, 101, 0),
        placeholder_row(4, 101, 1),
    );
    assert_eq!(t, expected);
}

#[test]
fn art_strip_draws_cached_albums() {
    let albums = vec![
        ("al1".to_string(), "One".to_string(), "X".to_string()),
        ("al2".to_string(), "Two".to_string(), "Y".to_string()),
        ("al3".to_string(), "Three".to_string(), "Z".to_string()),
    ];
    let cache = vec![("al3".to_string(), tiny_png()), ("al2".to_string(), tiny_png())];
    // Two rows tall: 2-column thumbnails; (20 - 2) / 3 = 6 visible; from album 1 on.
    let s = render_art_strip(&albums, 1, 0, &cache, rect(0, 0, 20, 2), None, 0, 10, false);
    assert!(s.starts_with("\x1b_Ga=t,f=32,i=100,s=64,v=64,o=z,"));
    assert!(s.contains("\x1b[11;1H\x1b_Ga=p,i=100,p=1,c=2,r=2,q=2;\x1b\\"));
    assert!(s.ends_with("\x1b[11;4H\x1b_Ga=p,i=101,p=1,c=2,r=2,q=2;\x1b\\"));
    let first = &s[..s.find("\x1b[11;1H").unwrap()];
    assert_eq!(inflate(&payload_of(first)).len(), 64 * 64 * 4);
    // Nothing cached for the first album: nothing drawn for it.
    let none = render_art_strip(&albums, 0, 0, &Vec::new(), rect(0, 0, 20, 2), None, 0, 10, false);
    assert_eq!(none, "");
    let tmux = render_art_strip(&albums, 5, 0, &cache, rect(0, 0, 20, 2), None, 0, 10, true);
    assert_eq!(tmux, clear_art_strip(true));
}

#[test]
fn api_calls_build_requests() {
    let c = SubsonicClient::new("http://h/", "u", "p");
    let (url, params) = c.request_with_salt(
        &ApiCall::Search3 { query: "abba".to_string(), artist_count: 1, album_count: 2, song_count: 30 },
        "salt",
    );
    assert_eq!(url, "http://h/rest/search3");
    assert_eq!(params.len(), 10);
    assert_eq!(params[1].1, make_token("p", "salt"));
    assert_eq!(params[6], ("query".to_string(), "abba".to_string()));
    assert_eq!(params[9], ("songCount".to_string(), "30".to_string()));
    let rm = ApiCall::RemoveTrackFromPlaylist { playlist_id: "pl".to_string(), index: 12 };
    assert_eq!(rm.endpoint(), "updatePlaylist");
    assert_eq!(
        rm.extra_params(),
        vec![
            ("playlistId".to_string(), "pl".to_string()),
            ("songIndexToRemove".to_string(), "12".to_string())
        ]
    );
    let scrobble = ApiCall::Scrobble("s9".to_string());
    assert_eq!(scrobble.endpoint(), "scrobble");
    assert_eq!(scrobble.extra_params()[1], ("submission".to_string(), "true".to_string()));
    assert!(ApiCall::CreatePlaylist("n".to_string()).uses_post());
    assert!(!ApiCall::Ping.uses_post());
    let (purl, pparams) = c.request(&ApiCall::Ping);
    assert_eq!(purl, "http://h/rest/ping");
    assert_eq!(pparams.len(), 6);
    assert_eq!(pparams[1].1, make_token("p", &pparams[2].1));
}

#[test]
fn response_fields_and_errors() {
    assert_eq!(response_field("ok", None, Some(5u32), "artists", "getArtists"), Ok(5));
    assert_eq!(
        response_field::<u32>("ok", None, None, "artists", "getArtists"),
        Err("missing 'artists' field in getArtists response".to_string())
    );
    let e = SubsonicError { code: 70, message: "Not found".to_string() };
    assert_eq!(
        response_field("failed", Some(&e), Some(1u32), "song", "getSong"),
        Err("Subsonic error 70: Not found".to_string())
    );
}

#[test]
fn stream_source_falls_back_to_server() {
    let c = SubsonicClient::new("http://h", "u", "p");
    let entry = CacheEntry {
        path: "/no/such/file.cache".to_string(),
        size_bytes: 1,
        last_played: 1,
        album_id: "al".to_string(),
    };
    let mut cache = TrackCache::from_index("/c", true, 100, vec![("s1".to_string(), entry)]);
    match resolve_stream_source(&mut cache, &c, false, "s1", 128) {
        StreamSource::Remote(u) => assert!(u.ends_with("&id=s1&maxBitRate=128")),
        StreamSource::Cached(_) => panic!("cache is off"),
    }
    assert_eq!(cache.index_entries().len(), 1);
    match resolve_stream_source(&mut cache, &c, true, "s1", 128) {
        StreamSource::Remote(u) => assert!(u.starts_with("http://h/rest/stream?u=u&t=")),
        StreamSource::Cached(_) => panic!("the file is missing"),
    }
    assert!(cache.index_entries().is_empty());
}

#[test]
fn cover_shown_again() {
    assert_eq!(display_image(rect(3, 4, 10, 6)), "\x1b[6;5H\x1b_Ga=p,i=1,c=8,r=4,q=2\x1b\\");
    assert_eq!(display_image(rect(0, 0, 2, 6)), "");
}

#[test]
fn graphics_probe_reply() {
    assert!(kitty_query_answered("\x1b_Gi=31;OK\x1b\\\x1b[?62;c"));
    assert!(!kitty_query_answered("\x1b[?62;c"));
    assert!(!kitty_query_answered(""));
}

#[test]
fn art_strip_uses_at_most_sixteen_ids() {
    let albums: Vec<(String, String, String)> =
        (0..20).map(|i| (format!("al{i}"), format!("A{i}"), "X".to_string())).collect();
    let cache: Vec<(String, Vec<u8>)> = (0..20).map(|i| (format!("al{i}"), tiny_png())).collect();
    // One row tall: 1-column thumbnails, (200 - 2) / 2 = 99 would fit.
    let s = render_art_strip(&albums, 0, 0, &cache, rect(0, 0, 200, 1), None, 0, 0, false);
    assert_eq!(s.matches("a=p,i=").count(), 16);
    assert!(s.contains("a=p,i=115,"));
    assert!(!s.contains("i=116"));
}
