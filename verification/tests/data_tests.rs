use playterm::cache::{playterm_cache_dir, CacheEntry, TrackCache};
use playterm::history::{history_path, PlayHistory, PlayRecord, MAX_RECORDS};
use playterm::models::{Album, Artist, ArtistIndex, Artists, Song};
use playterm::player::{EngineState, PlayerEvent};
use playterm::sort::{sort_artists_by_name, sort_songs};
use playterm::stream::{SeekFrom, StreamingReader};
use playterm::subsonic::{
    library_from_index, make_token, random_ascii, salt_from_seed, songs_from_albums,
    SubsonicClient,
};

fn song(id: &str, album: &str, disc: Option<u32>, track: Option<u32>) -> Song {
    Song {
        id: id.to_string(),
        title: format!("Title {id}"),
        album: None,
        artist: None,
        album_id: Some(album.to_string()),
        artist_id: None,
        track,
        disc_number: disc,
        year: None,
        genre: None,
        cover_art: None,
        duration: Some(100),
        bit_rate: None,
        content_type: None,
        suffix: None,
        size: None,
        path: None,
        starred: None,
    }
}

fn artist(id: &str, name: &str) -> Artist {
    Artist {
        id: id.to_string(),
        name: name.to_string(),
        album_count: None,
        cover_art: None,
        starred: None,
        album: Vec::<Album>::new(),
    }
}

fn record(song_id: &str, album: &str, artist_id: &str, at: i64) -> PlayRecord {
    PlayRecord {
        song_id: song_id.to_string(),
        album_id: album.to_string(),
        artist_id: artist_id.to_string(),
        artist_name: format!("Artist {artist_id}"),
        album_name: format!("Album {album}"),
        track_name: format!("Track {song_id}"),
        played_at: at,
        duration_secs: 200,
    }
}

#[test]
fn history_is_capped() {
    let mut h = PlayHistory::new();
    for i in 0..(MAX_RECORDS + 1) {
        h.record_play(record(&i.to_string(), "al", "ar", i as i64));
    }
    assert_eq!(h.records.len(), MAX_RECORDS);
    assert_eq!(h.records[0].song_id, "1");
    assert_eq!(h.records[MAX_RECORDS - 1].song_id, MAX_RECORDS.to_string());
}

#[test]
fn recent_albums_newest_first_and_distinct() {
    let mut h = PlayHistory::new();
    h.record_play(record("1", "A", "x", 1));
    h.record_play(record("2", "B", "x", 2));
    h.record_play(record("3", "A", "x", 3));
    h.record_play(record("4", "C", "x", 4));
    let r = h.recent_albums(2);
    assert_eq!(r.len(), 2);
    assert_eq!(r[0], ("C".to_string(), "Album C".to_string(), "Artist x".to_string()));
    assert_eq!(r[1].0, "A");
    let all = h.recent_albums(10);
    let ids: Vec<&str> = all.iter().map(|t| t.0.as_str()).collect();
    assert_eq!(ids, vec!["C", "A", "B"]);
    assert!(h.recent_albums(0).is_empty());
}

#[test]
fn top_artists_by_play_count() {
    let mut h = PlayHistory::new();
    for (i, a) in ["x", "y", "x", "z", "x", "z"].iter().enumerate() {
        h.record_play(record(&i.to_string(), "al", a, i as i64));
    }
    let t = h.top_artists(2);
    assert_eq!(t, vec![
        ("x".to_string(), "Artist x".to_string(), 3),
        ("z".to_string(), "Artist z".to_string(), 2),
    ]);
    assert_eq!(h.top_artists(10).len(), 3);
    assert!(h.top_artists(0).is_empty());
}

#[test]
fn rediscover_prefers_stale_artists() {
    let day = 86_400i64;
    let now = 100 * day;
    let mut h = PlayHistory::new();
    h.record_play(record("1", "al", "a", now - day));
    h.record_play(record("2", "al", "d", now - 20 * day));
    h.record_play(record("3", "al", "d", now - 30 * day));
    let lib = vec![
        ("a".to_string(), "A".to_string()),
        ("b".to_string(), "B".to_string()),
        ("c".to_string(), "C".to_string()),
        ("d".to_string(), "D".to_string()),
    ];
    let r = h.rediscover_artists_at(2, &lib, now);
    assert_eq!(r.len(), 2);
    let mut ids: Vec<String> = r.iter().map(|p| p.0.clone()).collect();
    ids.sort();
    assert_eq!(ids, vec!["b".to_string(), "c".to_string()]);
    let three = h.rediscover_artists_at(3, &lib, now);
    assert_eq!(three.len(), 3);
    assert_eq!(three[2].0, "d");
    let all = h.rediscover_artists_at(4, &lib, now);
    assert_eq!(all.len(), 4);
    assert!(h.rediscover_artists_at(0, &lib, now).is_empty());
}

#[test]
fn rediscover_orders_by_play_count_without_repeats() {
    let day = 86_400i64;
    let mut h = PlayHistory::new();
    h.record_play(record("1", "al", "a", 0));
    h.record_play(record("2", "al", "a", 0));
    h.record_play(record("3", "al", "b", 0));
    let lib = vec![
        ("a".to_string(), "A".to_string()),
        ("b".to_string(), "B".to_string()),
        ("c".to_string(), "C".to_string()),
    ];
    let r = h.rediscover_artists_at(2, &lib, 15 * day);
    assert_eq!(
        r,
        vec![("c".to_string(), "C".to_string()), ("b".to_string(), "B".to_string())]
    );
    let every = h.rediscover_artists_at(3, &lib, 15 * day);
    assert_eq!(every.len(), 3);
    assert_eq!(every[2].0, "a");
}

#[test]
fn history_file_location() {
    assert_eq!(history_path(Some("/home/u".to_string())), "/home/u/.local/share/playterm/history.json");
    assert_eq!(history_path(None), "history.json");
}

#[test]
fn now_secs_is_after_2020() {
    assert!(PlayRecord::now_secs() > 1_577_836_800);
}

fn entry(path: &str, size: u64, last: u64) -> CacheEntry {
    CacheEntry { path: path.to_string(), size_bytes: size, last_played: last, album_id: "al".to_string() }
}

#[test]
fn cache_evicts_oldest_to_fit() {
    let loaded = vec![
        ("s1".to_string(), entry("/c/s1", 60, 1)),
        ("s2".to_string(), entry("/c/s2", 60, 2)),
    ];
    let mut c = TrackCache::from_index("/c", true, 100, loaded);
    let gone = c.evict_to_limit();
    assert_eq!(gone, vec!["/c/s1".to_string()]);
    let left = c.index_entries();
    assert_eq!(left.len(), 1);
    assert_eq!(left[0].0, "s2");
    assert!(c.evict_to_limit().is_empty());
}

#[test]
fn cache_paths_and_disabled() {
    let c = TrackCache::from_index("/base", true, 10, Vec::new());
    assert_eq!(c.file_path("s3"), "/base/tracks/s3.cache");
    assert_eq!(c.index_path(), "/base/cache.json");
    let d = TrackCache::from_index("/base", false, 10, vec![("s".to_string(), entry("/x", 1, 1))]);
    assert!(!d.enabled());
    assert!(!d.get_const("s"));
    assert!(d.index_entries().is_empty());
    assert!(!TrackCache::disabled(5).enabled());
}

#[test]
fn cache_put_records_and_evicts() {
    let mut c = TrackCache::from_index("/base", true, 100, Vec::new());
    assert!(c.put("a", "al", 70).is_empty());
    let gone = c.put("b", "al", 50);
    assert_eq!(gone.len(), 1);
    assert_eq!(c.index_entries().len(), 1);
    assert!(!c.touch("missing"));
    let kept = c.index_entries()[0].0.clone();
    assert!(c.touch(&kept));
}

#[test]
fn cache_eviction_stops_within_limit() {
    let loaded = vec![
        ("s1".to_string(), entry("/c/s1", 30, 5)),
        ("s2".to_string(), entry("/c/s2", 30, 1)),
        ("s3".to_string(), entry("/c/s3", 30, 9)),
        ("s4".to_string(), entry("/c/s4", 30, 3)),
    ];
    let mut c = TrackCache::from_index("/c", true, 70, loaded);
    let gone = c.evict_to_limit();
    assert_eq!(gone, vec!["/c/s2".to_string(), "/c/s4".to_string()]);
    let mut left: Vec<String> = c.index_entries().into_iter().map(|e| e.0).collect();
    left.sort();
    assert_eq!(left, vec!["s1".to_string(), "s3".to_string()]);
}

#[test]
fn cache_put_at_and_touch_at_stamp_the_time() {
    let mut c = TrackCache::from_index("/base", true, 100, Vec::new());
    assert!(c.put_at("a", "al1", 40, 10).is_empty());
    assert!(c.put_at("b", "al2", 40, 20).is_empty());
    assert!(c.touch_at("a", 30));
    let gone = c.put_at("c", "al3", 40, 25);
    assert_eq!(gone, vec!["/base/tracks/b.cache".to_string()]);
    let mut left = c.index_entries();
    left.sort_by(|x, y| x.0.cmp(&y.0));
    assert_eq!(left.len(), 2);
    assert_eq!(left[0].0, "a");
    assert_eq!(left[0].1.last_played, 30);
    assert_eq!(left[0].1.path, "/base/tracks/a.cache");
    assert_eq!(left[1].0, "c");
    assert_eq!(left[1].1.last_played, 25);
    assert_eq!(left[1].1.size_bytes, 40);
    assert_eq!(left[1].1.album_id, "al3");
    assert!(!c.touch_at("b", 40));
}

#[test]
fn cache_lookup_given_presence() {
    let loaded = vec![("s".to_string(), entry("/c/s", 10, 1)), ("t".to_string(), entry("/c/t", 10, 2))];
    let mut c = TrackCache::from_index("/c", true, 100, loaded);
    assert_eq!(c.indexed_path("s"), Some("/c/s".to_string()));
    assert_eq!(c.indexed_path("u"), None);
    assert_eq!(c.settle_lookup("s", true), Some("/c/s".to_string()));
    assert_eq!(c.index_entries().len(), 2);
    assert_eq!(c.settle_lookup("t", false), None);
    let left = c.index_entries();
    assert_eq!(left.len(), 1);
    assert_eq!(left[0].0, "s");
    assert_eq!(c.settle_lookup("u", true), None);
}

#[test]
fn cache_presence_given_the_probe() {
    let loaded = vec![("s".to_string(), entry("/c/s", 10, 1))];
    let c = TrackCache::from_index("/c", true, 100, loaded.clone());
    assert!(c.cached_given("s", true));
    assert!(!c.cached_given("s", false));
    assert!(!c.cached_given("u", true));
    let off = TrackCache::from_index("/c", false, 100, loaded);
    assert!(!off.cached_given("s", true));
}

#[test]
fn cache_get_drops_missing_files() {
    let mut c = TrackCache::from_index(
        "/base",
        true,
        100,
        vec![("s".to_string(), entry("/definitely/not/here.cache", 1, 1))],
    );
    assert!(!c.get_const("s"));
    assert_eq!(c.get("s"), None);
    assert!(c.index_entries().is_empty());
}

#[test]
fn cache_dir_from_env_values() {
    assert_eq!(playterm_cache_dir(Some("/x".to_string()), None), Some("/x/playterm".to_string()));
    assert_eq!(
        playterm_cache_dir(None, Some("/h".to_string())),
        Some("/h/.cache/playterm".to_string())
    );
    assert_eq!(playterm_cache_dir(None, None), None);
}

#[test]
fn songs_sort_by_disc_and_track() {
    let v = vec![
        song("c", "x", Some(2), Some(1)),
        song("a", "x", None, Some(2)),
        song("b", "x", Some(1), Some(1)),
        song("d", "x", Some(1), None),
    ];
    let s = sort_songs(v, false);
    let ids: Vec<&str> = s.iter().map(|x| x.id.as_str()).collect();
    assert_eq!(ids, vec!["d", "b", "a", "c"]);
}

#[test]
fn songs_sort_by_album_first() {
    let v = vec![song("1", "b", None, Some(1)), song("2", "a", None, Some(2)), song("3", "a", None, Some(1))];
    let s = sort_songs(v, true);
    let ids: Vec<&str> = s.iter().map(|x| x.id.as_str()).collect();
    assert_eq!(ids, vec!["3", "2", "1"]);
}

#[test]
fn songs_sort_keeps_equal_keys_in_order() {
    let v = vec![
        song("p", "b", None, Some(2)),
        song("q", "a", Some(1), Some(1)),
        song("r", "b", Some(1), Some(2)),
        song("s", "a", None, Some(1)),
        song("t", "a", Some(1), Some(1)),
    ];
    let s = sort_songs(v, true);
    let ids: Vec<&str> = s.iter().map(|x| x.id.as_str()).collect();
    assert_eq!(ids, vec!["q", "s", "t", "p", "r"]);
}

#[test]
fn artists_of_one_name_keep_their_order() {
    let s = sort_artists_by_name(vec![artist("1", "b"), artist("2", "a"), artist("3", "b"), artist("4", "a")]);
    let ids: Vec<&str> = s.iter().map(|x| x.id.as_str()).collect();
    assert_eq!(ids, vec!["2", "4", "1", "3"]);
}

#[test]
fn artists_sort_by_name() {
    let s = sort_artists_by_name(vec![artist("1", "b"), artist("2", "C"), artist("3", "a")]);
    let names: Vec<&str> = s.iter().map(|x| x.name.as_str()).collect();
    assert_eq!(names, vec!["C", "a", "b"]);
}

#[test]
fn library_flattens_and_sorts() {
    let idx = Artists {
        ignored_articles: String::new(),
        index: vec![
            ArtistIndex { name: "B".to_string(), artist: vec![artist("2", "Beta"), artist("1", "Alpha")] },
            ArtistIndex { name: "C".to_string(), artist: vec![artist("3", "Gamma")] },
        ],
    };
    let lib = library_from_index(idx);
    let names: Vec<&str> = lib.artists.iter().map(|a| a.name.as_str()).collect();
    assert_eq!(names, vec!["Alpha", "Beta", "Gamma"]);
}

#[test]
fn album_songs_flatten_and_sort() {
    let r = songs_from_albums(vec![
        vec![song("a2", "A", None, Some(2)), song("a1", "A", None, Some(1))],
        vec![song("b1", "B", Some(2), Some(1))],
    ]);
    let ids: Vec<&str> = r.iter().map(|x| x.id.as_str()).collect();
    assert_eq!(ids, vec!["a1", "a2", "b1"]);
}

#[test]
fn subsonic_token_matches_api_example() {
    assert_eq!(make_token("sesame", "c19b2d"), "26719a1196d2a940705a59634eb18eab");
}

#[test]
fn salts_are_lowercase_alphanumeric() {
    let s = random_ascii(12);
    assert_eq!(s.len(), 12);
    assert!(s.chars().all(|c| c.is_ascii_lowercase() || c.is_ascii_digit()));
    assert_eq!(salt_from_seed(7, 8), salt_from_seed(7, 8));
    assert_eq!(salt_from_seed(7, 0), "");
}

#[test]
fn subsonic_urls() {
    let c = SubsonicClient::new("http://h//", "u", "p");
    assert_eq!(c.endpoint_url("ping"), "http://h/rest/ping");
    let tok = make_token("p", "c19b2d");
    let url = c.stream_url_with_salt("s1", 320, "c19b2d");
    assert_eq!(
        url,
        format!("http://h/rest/stream?u=u&t={tok}&s=c19b2d&v=1.16.1&c=playterm&f=json&id=s1&maxBitRate=320")
    );
    let params = c.auth_params();
    assert_eq!(params.len(), 6);
    assert_eq!(params[0], ("u".to_string(), "u".to_string()));
    assert_eq!(params[1].1, make_token("p", &params[2].1));
    assert_eq!(params[5], ("f".to_string(), "json".to_string()));
    let fresh = c.stream_url("s1", 0);
    assert!(fresh.starts_with("http://h/rest/stream?u=u&t="));
    assert!(fresh.ends_with("&id=s1&maxBitRate=0"));
    let salt_at = fresh.find("&s=").unwrap() + 3;
    let salt = &fresh[salt_at..salt_at + 12];
    assert!(salt.chars().all(|ch| ch.is_ascii_lowercase() || ch.is_ascii_digit()));
    assert_eq!(&fresh[salt_at + 12..salt_at + 16], "&v=1");
    let extra = c.request_params_with_salt("x", vec![("id".to_string(), "7".to_string())]);
    assert_eq!(extra.len(), 7);
    assert_eq!(extra[6], ("id".to_string(), "7".to_string()));
}

#[test]
fn stream_reader_positions() {
    let mut r = StreamingReader::new();
    assert_eq!(r.advance(10, 4), 4);
    assert_eq!(r.pos, 4);
    assert_eq!(r.advance(10, 100), 6);
    assert_eq!(r.advance(10, 100), 0);
    assert_eq!(r.seek(SeekFrom::Start(3), 10), Ok(3));
    assert_eq!(r.seek(SeekFrom::Current(-5), 10), Err("seek before start of stream".to_string()));
    assert_eq!(r.pos, 3);
    assert_eq!(r.seek(SeekFrom::End(-2), 10), Ok(8));
    assert_eq!(r.seek(SeekFrom::Current(2), 10), Ok(10));
}

#[test]
fn engine_announces_end_and_hands_over() {
    let mut e = EngineState::new();
    e.on_play_requested();
    assert!(matches!(e.on_play_loaded(Some(30_000), Ok(())), PlayerEvent::TrackStarted));
    let t1 = e.tick(false, false, 21_000);
    assert_eq!(t1.len(), 2);
    assert!(matches!(t1[0], PlayerEvent::Progress { elapsed_ms: 21_000, total_ms: Some(30_000) }));
    assert!(matches!(t1[1], PlayerEvent::AboutToFinish));
    let t2 = e.tick(false, false, 22_000);
    assert_eq!(t2.len(), 1);
    assert!(e.on_enqueue_loaded(Some(5_000), Ok(())).is_none());
    let t3 = e.tick(false, false, 500);
    assert_eq!(t3.len(), 3);
    assert!(matches!(t3[0], PlayerEvent::TrackAdvanced));
    assert!(matches!(t3[1], PlayerEvent::Progress { elapsed_ms: 500, total_ms: Some(5_000) }));
    assert!(matches!(t3[2], PlayerEvent::AboutToFinish));
    let t4 = e.tick(false, true, 0);
    assert_eq!(t4.len(), 1);
    assert!(matches!(t4[0], PlayerEvent::TrackEnded));
    assert_eq!(e, EngineState::new());
}

#[test]
fn engine_reports_load_errors_and_pauses() {
    let mut e = EngineState::new();
    match e.on_play_loaded(None, Err("boom".to_string())) {
        PlayerEvent::Error(m) => assert_eq!(m, "playback error: boom"),
        _ => panic!("expected an error"),
    }
    match e.on_enqueue_loaded(None, Err("x".to_string())) {
        Some(PlayerEvent::Error(m)) => assert_eq!(m, "enqueue error: x"),
        _ => panic!("expected an error"),
    }
    assert!(e.tick(true, false, 1000).is_empty());
    assert!(e.tick(false, true, 0).is_empty());
    e.on_stop();
    assert_eq!(e, EngineState::new());
}
