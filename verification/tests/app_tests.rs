use playterm::action::{Action, Direction};
use playterm::app::{flash_expired, frame_poll_ms, App, BrowserColumn, ClickTarget, Effect, LibraryUpdate, MouseOutcome, Tab};
use playterm::config::{Config, KeybindsSection, ThemeSection};
use playterm::layout::{art_rect, bar_split, build_layout, Rect};
use playterm::models::{Album, Artist, LyricLine, Song};
use playterm::player::{PlayerCommand, PlayerEvent};
use playterm::lyrics::{current_line, synced_scroll};
use playterm::mpris::{track_object_path, MprisControl};
use playterm::state::LoadingState;
use playterm::ui_text::{album_label, queue_label, server_host, track_label};

fn song(id: &str, album: &str, track: u32) -> Song {
    Song {
        id: id.to_string(),
        title: format!("Title {id}"),
        album: Some(format!("Album {album}")),
        artist: Some("Band".to_string()),
        album_id: Some(album.to_string()),
        artist_id: Some("ar".to_string()),
        track: Some(track),
        disc_number: None,
        year: None,
        genre: None,
        cover_art: Some(format!("cover-{album}")),
        duration: Some(200),
        bit_rate: None,
        content_type: None,
        suffix: None,
        size: None,
        path: None,
        starred: None,
    }
}

fn artist(id: &str, name: &str) -> Artist {
    Artist {
        id: id.to_string(),
        name: name.to_string(),
        album_count: None,
        cover_art: None,
        starred: None,
        album: Vec::<Album>::new(),
    }
}

fn album(id: &str, name: &str) -> Album {
    Album {
        id: id.to_string(),
        name: name.to_string(),
        artist: None,
        artist_id: None,
        cover_art: None,
        song_count: None,
        duration: None,
        year: None,
        genre: None,
        starred: None,
        song: Vec::new(),
    }
}

fn config() -> Config {
    Config {
        subsonic_url: "http://h".to_string(),
        subsonic_user: "u".to_string(),
        subsonic_pass: "p".to_string(),
        default_volume: 70,
        max_bit_rate: 0,
        cache_enabled: false,
        cache_max_size_bytes: 0,
        lyrics_visible: false,
        theme: ThemeSection {
            dynamic: false,
            accent: None,
            background: None,
            surface: None,
            foreground: None,
            dimmed: None,
            border: None,
            border_active: None,
        },
        keybinds: KeybindsSection {
            scroll_up: None,
            scroll_down: None,
            column_left: None,
            column_right: None,
            play_pause: None,
            next_track: None,
            prev_track: None,
            seek_forward: None,
            seek_backward: None,
            add_track: None,
            add_all: None,
            shuffle: None,
            unshuffle: None,
            clear_queue: None,
            search: None,
            volume_up: None,
            volume_down: None,
            tab_switch: None,
            tab_switch_reverse: None,
            go_to_home: None,
            go_to_browser: None,
            go_to_nowplaying: None,
            quit: None,
        },
    }
}

fn app_with_queue(n: usize) -> App {
    let mut app = App::new(config());
    let songs: Vec<Song> = (0..n).map(|i| song(&format!("s{i}"), "al", i as u32 + 1)).collect();
    app.apply_library_update(LibraryUpdate::AllTracksForArtist { songs, start_playing: true });
    app
}

#[test]
fn new_app_starts_idle() {
    let app = App::new(config());
    assert_eq!(app.active_tab, Tab::Browser);
    assert_eq!(app.browser_focus, BrowserColumn::Artists);
    assert!(app.queue.songs.is_empty());
    assert!(app.playback.current_song.is_none());
    let e = app.initial_effects();
    assert_eq!(e.len(), 1);
    assert!(matches!(e[0], Effect::Player(PlayerCommand::SetVolume(70))));
}

#[test]
fn toggles_and_quit() {
    let mut app = App::new(config());
    app.dispatch(Action::ToggleHelp);
    assert!(app.help_visible);
    app.dispatch(Action::ToggleHelp);
    assert!(!app.help_visible);
    app.dispatch(Action::SwitchTab);
    assert_eq!(app.active_tab, Tab::NowPlaying);
    app.dispatch(Action::SwitchTab);
    assert_eq!(app.active_tab, Tab::Browser);
    app.dispatch(Action::GoToNowPlaying);
    assert_eq!(app.active_tab, Tab::NowPlaying);
    app.dispatch(Action::Quit);
    assert!(app.should_quit);
}

#[test]
fn volume_is_clamped() {
    let mut app = App::new(config());
    app.config.default_volume = 98;
    let e = app.dispatch(Action::VolumeUp);
    assert_eq!(app.config.default_volume, 100);
    assert!(matches!(e[0], Effect::Player(PlayerCommand::SetVolume(100))));
    app.config.default_volume = 3;
    app.dispatch(Action::VolumeDown);
    assert_eq!(app.config.default_volume, 0);
}

#[test]
fn queue_of_artist_tracks_starts_playing() {
    let mut app = App::new(config());
    let songs = vec![song("b2", "b", 2), song("a1", "a", 1), song("b1", "b", 1)];
    let e = app.apply_library_update(LibraryUpdate::AllTracksForArtist { songs, start_playing: true });
    let ids: Vec<&str> = app.queue.songs.iter().map(|s| s.id.as_str()).collect();
    assert_eq!(ids, vec!["a1", "b1", "b2"]);
    assert_eq!(app.queue.cursor, 0);
    assert_eq!(e.len(), 1);
    match &e[0] {
        Effect::Play { song, gen } => {
            assert_eq!(song.id, "a1");
            assert_eq!(*gen, 1);
        }
        _ => panic!("expected Play"),
    }
    assert!(app.playback.player_loaded);
    assert_eq!(app.play_gen, 1);
}

#[test]
fn next_and_previous_track() {
    let mut app = app_with_queue(3);
    let e = app.dispatch(Action::NextTrack);
    assert_eq!(app.queue.cursor, 1);
    assert!(matches!(&e[0], Effect::Play { gen: 2, .. }));
    app.dispatch(Action::NextTrack);
    let none = app.dispatch(Action::NextTrack);
    assert_eq!(app.queue.cursor, 2);
    assert!(none.is_empty());
    app.dispatch(Action::PrevTrack);
    assert_eq!(app.queue.cursor, 1);
}

#[test]
fn play_pause_alternates() {
    let mut app = app_with_queue(2);
    let e = app.dispatch(Action::PlayPause);
    assert!(app.playback.paused);
    assert!(matches!(e[0], Effect::Player(PlayerCommand::Pause)));
    let e = app.dispatch(Action::PlayPause);
    assert!(!app.playback.paused);
    assert!(matches!(e[0], Effect::Player(PlayerCommand::Resume)));
}

#[test]
fn seeking_clamps() {
    let mut app = app_with_queue(1);
    app.playback.elapsed_ms = 5_000;
    app.playback.total_ms = Some(12_000);
    let e = app.dispatch(Action::SeekForward);
    assert_eq!(app.playback.elapsed_ms, 12_000);
    assert!(matches!(e[0], Effect::Player(PlayerCommand::Seek(12_000))));
    app.playback.elapsed_ms = 5_000;
    app.dispatch(Action::SeekBackward);
    assert_eq!(app.playback.elapsed_ms, 0);
    app.dispatch(Action::SeekTo(99_000));
    assert_eq!(app.playback.elapsed_ms, 12_000);
}

#[test]
fn clear_queue_stops() {
    let mut app = app_with_queue(3);
    let e = app.dispatch(Action::ClearQueue);
    assert!(app.queue.songs.is_empty());
    assert!(app.playback.current_song.is_none());
    assert!(matches!(e[0], Effect::Player(PlayerCommand::Stop)));
}

#[test]
fn shuffle_keeps_playing_song_first() {
    let mut app = app_with_queue(6);
    app.dispatch(Action::NextTrack);
    app.dispatch(Action::NextTrack);
    let playing = app.queue.songs[2].id.clone();
    let mut before: Vec<String> = app.queue.songs.iter().map(|s| s.id.clone()).collect();
    app.shuffle_with_seed(42);
    assert_eq!(app.queue.songs[0].id, playing);
    assert_eq!(app.queue.cursor, 0);
    let mut after: Vec<String> = app.queue.songs.iter().map(|s| s.id.clone()).collect();
    before.sort();
    after.sort();
    assert_eq!(before, after);
}

#[test]
fn shuffle_is_determined_by_seed() {
    let mut a = app_with_queue(8);
    let mut b = app_with_queue(8);
    a.playback.current_song = None;
    b.playback.current_song = None;
    a.shuffle_with_seed(7);
    b.shuffle_with_seed(7);
    let ia: Vec<&str> = a.queue.songs.iter().map(|s| s.id.as_str()).collect();
    let ib: Vec<&str> = b.queue.songs.iter().map(|s| s.id.as_str()).collect();
    assert_eq!(ia, ib);
    let mut c = app_with_queue(1);
    c.shuffle_with_seed(7);
    assert_eq!(c.queue.songs.len(), 1);
}

#[test]
fn artists_arrive_and_albums_are_requested() {
    let mut app = App::new(config());
    let e = app.apply_library_update(LibraryUpdate::Artists(Ok(vec![artist("1", "Abba"), artist("2", "Blur")])));
    assert_eq!(app.library.selected_artist, Some(0));
    assert_eq!(e.len(), 1);
    assert!(matches!(&e[0], Effect::FetchAlbums(id) if id == "1"));
    let again = app.apply_library_update(LibraryUpdate::Artists(Ok(vec![artist("1", "Abba")])));
    assert!(again.is_empty());
    let mut other = App::new(config());
    other.library.selected_artist = Some(9);
    other.apply_library_update(LibraryUpdate::Artists(Ok(vec![artist("1", "Abba"), artist("2", "Blur")])));
    assert_eq!(other.library.selected_artist, Some(1));
    let mut failed = App::new(config());
    failed.apply_library_update(LibraryUpdate::Artists(Err("down".to_string())));
    assert!(matches!(&failed.library.artists, LoadingState::Error(m) if m == "down"));
}

#[test]
fn albums_and_tracks_flow() {
    let mut app = App::new(config());
    app.apply_library_update(LibraryUpdate::Artists(Ok(vec![artist("1", "Abba")])));
    let e = app.apply_library_update(LibraryUpdate::Albums {
        artist_id: "1".to_string(),
        result: Ok(vec![album("a1", "Gold"), album("a2", "Arrival")]),
    });
    assert_eq!(app.library.selected_album, Some(0));
    assert!(matches!(&e[0], Effect::FetchTracks(id) if id == "a1"));
    app.apply_library_update(LibraryUpdate::Tracks {
        album_id: "a1".to_string(),
        result: Ok(vec![song("t1", "a1", 1), song("t2", "a1", 2)]),
    });
    assert_eq!(app.library.selected_track, Some(0));
    assert_eq!(app.library.current_track().map(|s| s.id.clone()), Some("t1".to_string()));
    app.dispatch(Action::FocusRight);
    assert_eq!(app.browser_focus, BrowserColumn::Albums);
    app.dispatch(Action::FocusRight);
    assert_eq!(app.browser_focus, BrowserColumn::Tracks);
    app.dispatch(Action::Navigate(Direction::Down));
    assert_eq!(app.library.selected_track, Some(1));
    let e = app.dispatch(Action::AddToQueue);
    assert_eq!(app.queue.songs.len(), 1);
    assert_eq!(app.queue.songs[0].id, "t2");
    assert!(matches!(&e[0], Effect::Play { .. }));
    app.dispatch(Action::FocusLeft);
    assert_eq!(app.browser_focus, BrowserColumn::Albums);
}

#[test]
fn search_moves_selection_and_filters() {
    let mut app = App::new(config());
    app.apply_library_update(LibraryUpdate::Artists(Ok(vec![
        artist("1", "Abba"),
        artist("2", "Blur"),
        artist("3", "Bob"),
    ])));
    app.dispatch(Action::SearchStart);
    assert!(app.search_mode.active);
    app.dispatch(Action::SearchInput('O'));
    app.dispatch(Action::SearchInput('x'));
    app.dispatch(Action::SearchBackspace);
    assert_eq!(app.search_mode.query, "O");
    app.dispatch(Action::SearchConfirm);
    assert!(!app.search_mode.active);
    assert_eq!(app.search_filter, Some("o".to_string()));
    assert_eq!(app.library.selected_artist, Some(2));
    app.dispatch(Action::SearchCancel);
    assert_eq!(app.search_filter, None);
}

#[test]
fn player_events_update_state() {
    let mut app = app_with_queue(2);
    let e = app.handle_player_event(PlayerEvent::TrackStarted);
    assert!(matches!(&e[0], Effect::AccentClear));
    assert!(matches!(&e[1], Effect::FetchCoverArt(c) if c == "cover-al"));
    assert!(matches!(&e[2], Effect::FetchLyrics { song_id, .. } if song_id == "s0"));
    assert_eq!(e.len(), 3);
    assert!(app.lyrics_loading);
    app.handle_player_event(PlayerEvent::Progress { elapsed_ms: 1234, total_ms: Some(200_000) });
    assert_eq!(app.playback.elapsed_ms, 1234);
    assert_eq!(app.playback.total_ms, Some(200_000));
    app.handle_player_event(PlayerEvent::Progress { elapsed_ms: 2000, total_ms: None });
    assert_eq!(app.playback.elapsed_ms, 2000);
    assert_eq!(app.playback.total_ms, Some(200_000));
    let e = app.handle_player_event(PlayerEvent::AboutToFinish);
    assert!(matches!(&e[0], Effect::EnqueueNext { song_id, duration_ms: Some(200_000) } if song_id == "s1"));
    app.handle_player_event(PlayerEvent::TrackAdvanced);
    assert_eq!(app.queue.cursor, 1);
    let e = app.handle_player_event(PlayerEvent::TrackEnded);
    assert!(e.is_empty());
    assert!(app.playback.current_song.is_none());
    let e = app.handle_player_event(PlayerEvent::Error("bad".to_string()));
    assert!(matches!(&e[0], Effect::ReportError(m) if m == "bad"));
}

#[test]
fn cover_art_and_lyrics_updates() {
    let mut app = app_with_queue(1);
    let e = app.apply_library_update(LibraryUpdate::CoverArt { cover_id: "cover-al".to_string(), bytes: vec![1, 2] });
    assert!(matches!(e[0], Effect::AccentFromArt));
    let e = app.handle_player_event(PlayerEvent::TrackStarted);
    assert!(matches!(e[0], Effect::AccentFromArt));
    app.apply_library_update(LibraryUpdate::Lyrics {
        song_id: "s0".to_string(),
        lines: vec![LyricLine { time_ms: None, text: "la".to_string() }],
    });
    assert!(!app.lyrics_loading);
    assert!(app.lyrics_are_unsynced());
    let e = app.handle_player_event(PlayerEvent::TrackStarted);
    assert_eq!(e.len(), 1);
}

#[test]
fn lyrics_overlay_requests_lyrics() {
    let mut app = app_with_queue(1);
    app.dispatch(Action::ToggleLyrics);
    assert!(!app.lyrics_visible);
    app.dispatch(Action::SwitchTab);
    let e = app.dispatch(Action::ToggleLyrics);
    assert!(app.lyrics_visible);
    assert!(matches!(&e[0], Effect::FetchLyrics { title, .. } if title == "Title s0"));
}

#[test]
fn dynamic_theme_toggle() {
    let mut app = App::new(config());
    let e = app.dispatch(Action::ToggleDynamicTheme);
    assert!(app.dynamic_theme);
    assert!(matches!(e[0], Effect::DynamicTheme(true)));
}

#[test]
fn layout_splits_screen() {
    let area = Rect { x: 0, y: 0, width: 100, height: 30 };
    let l = build_layout(area);
    assert_eq!(l.center, Rect { x: 0, y: 0, width: 100, height: 24 });
    assert_eq!(l.now_playing, Rect { x: 0, y: 24, width: 100, height: 4 });
    assert_eq!(l.tab_bar.y, 28);
    assert_eq!(l.status_bar.y, 29);
    let art = art_rect(area);
    assert_eq!(art.x, 0);
    assert_eq!(art.width, 50);
    let cols = bar_split(l.now_playing);
    assert_eq!(cols.len(), 3);
    assert_eq!(cols[1].x, 30);
    assert_eq!(cols[1].width, 40);
}

#[test]
fn mouse_clicks_on_controls_and_queue() {
    let area = Rect { x: 0, y: 0, width: 100, height: 30 };
    let mut app = app_with_queue(3);
    let t = app.click_target_of(45, 25, area);
    assert!(matches!(t, ClickTarget::Control(Action::PlayPause)));
    let out = app.handle_mouse_click(31, 25, area);
    assert!(matches!(out, MouseOutcome::Done(_)));
    assert!(matches!(app.click_target_of(5, 29, area), ClickTarget::Nothing));
    app.dispatch(Action::SwitchTab);
    app.handle_mouse_click(60, 3, area);
    assert_eq!(app.queue.cursor, 2);
}

#[test]
fn mouse_click_on_progress_bar() {
    let area = Rect { x: 0, y: 0, width: 100, height: 30 };
    let mut app = app_with_queue(1);
    app.playback.elapsed_ms = 0;
    app.playback.total_ms = Some(200_000);
    match app.handle_mouse_click(80, 26, area) {
        MouseOutcome::Seek { offset, width, total_secs } => {
            assert_eq!(total_secs, 200);
            assert!(offset < width);
        }
        _ => panic!("expected a seek"),
    }
}

#[test]
fn mouse_click_selects_artist() {
    let area = Rect { x: 0, y: 0, width: 100, height: 30 };
    let mut app = App::new(config());
    app.apply_library_update(LibraryUpdate::Artists(Ok(vec![
        artist("1", "A"),
        artist("2", "B"),
        artist("3", "C"),
    ])));
    let e = app.handle_mouse_click(5, 2, area);
    assert_eq!(app.library.selected_artist, Some(1));
    assert_eq!(app.browser_focus, BrowserColumn::Artists);
    assert!(matches!(e, MouseOutcome::Done(v) if v.len() == 1));
}

#[test]
fn saved_state_round_trip() {
    let mut app = app_with_queue(3);
    app.dispatch(Action::NextTrack);
    app.active_tab = Tab::NowPlaying;
    let saved = app.saved_state();
    let mut fresh = App::new(config());
    fresh.restore_state(saved);
    assert_eq!(fresh.active_tab, Tab::NowPlaying);
    assert_eq!(fresh.queue.songs.len(), 3);
    assert_eq!(fresh.queue.cursor, 1);
    assert_eq!(fresh.queue.scroll, 1);
    assert!(fresh.playback.current_song.is_none());
}

#[test]
fn restore_clamps_cursor() {
    let mut app = app_with_queue(2);
    app.queue.cursor = 1;
    let mut saved = app.saved_state();
    saved.queue_cursor = 10;
    let mut fresh = App::new(config());
    fresh.restore_state(saved);
    assert_eq!(fresh.queue.cursor, 1);
}

#[test]
fn mpris_state_reflects_playback() {
    let mut app = app_with_queue(2);
    let s = app.mpris_state();
    assert!(s.has_track);
    assert_eq!(s.track_path, "/net/playterm/track/s0");
    assert_eq!(s.length_micros, 200_000_000);
    assert!(s.can_go_next);
    assert!(!s.can_go_previous);
    assert_eq!(s.status, playterm::mpris::PlayStatus::Playing);
    app.dispatch(Action::PlayPause);
    assert_eq!(app.mpris_state().status, playterm::mpris::PlayStatus::Paused);
    assert_eq!(app.cover_to_export(), None);
    app.apply_library_update(LibraryUpdate::CoverArt { cover_id: "cover-al".to_string(), bytes: vec![9] });
    assert_eq!(app.cover_to_export(), Some("cover-al".to_string()));
}

#[test]
fn media_interface_requests() {
    let mut app = app_with_queue(2);
    assert_eq!(app.control_action(MprisControl::PlayPause), Some(Action::PlayPause));
    assert_eq!(app.control_action(MprisControl::Play), None);
    assert_eq!(app.control_action(MprisControl::Pause), Some(Action::PlayPause));
    app.dispatch(Action::PlayPause);
    assert_eq!(app.control_action(MprisControl::Play), Some(Action::PlayPause));
    assert_eq!(app.control_action(MprisControl::Pause), None);
    assert_eq!(app.control_action(MprisControl::Stop), Some(Action::Quit));
    assert_eq!(app.control_action(MprisControl::Next), Some(Action::NextTrack));
    assert_eq!(app.control_action(MprisControl::SetVolume(50)), None);
    app.handle_player_event(PlayerEvent::Progress { elapsed_ms: 5_000, total_ms: Some(200_000) });
    assert_eq!(app.control_action(MprisControl::SeekDelta(2_500_000)), Some(Action::SeekTo(7_500)));
    assert_eq!(app.control_action(MprisControl::SeekDelta(-9_000_999)), Some(Action::SeekTo(0)));
    assert_eq!(app.control_action(MprisControl::SeekDelta(-1_999)), Some(Action::SeekTo(4_999)));
    let path = track_object_path("s0");
    assert_eq!(
        app.control_action(MprisControl::SetPosition { track_path: path, position_micros: 42_000_000 }),
        Some(Action::SeekTo(42_000))
    );
    assert_eq!(
        app.control_action(MprisControl::SetPosition {
            track_path: "/other".to_string(),
            position_micros: 1,
        }),
        None
    );
}

#[test]
fn synced_lyrics_follow_playback() {
    let lines = vec![
        LyricLine { time_ms: Some(1_000), text: "a".to_string() },
        LyricLine { time_ms: None, text: "b".to_string() },
        LyricLine { time_ms: Some(5_000), text: "c".to_string() },
        LyricLine { time_ms: Some(9_000), text: "d".to_string() },
    ];
    assert_eq!(current_line(&lines, 500), None);
    assert_eq!(current_line(&lines, 1_000), Some(0));
    assert_eq!(current_line(&lines, 6_000), Some(2));
    assert_eq!(current_line(&lines, 60_000), Some(3));
    assert_eq!(synced_scroll(None, 10), 0);
    assert_eq!(synced_scroll(Some(3), 4), 1);
    assert_eq!(synced_scroll(Some(1), 10), 0);
}

#[test]
fn list_labels() {
    let mut a = album("al", "Blue");
    assert_eq!(album_label(&a), "Blue");
    a.year = Some(1971);
    assert_eq!(album_label(&a), "Blue (1971)");
    let s = song("s1", "al", 3);
    assert_eq!(track_label(&s), " 3. Title s1  3:20");
    let mut bare = song("s2", "al", 12);
    bare.track = None;
    bare.duration = None;
    assert_eq!(track_label(&bare), "Title s2");
    let q = queue_label(&s);
    assert_eq!(q, format!("  3.  {:<40}  {:<25}   3:20", "Title s1", "Band"));
    let mut long = song("s3", "al", 123);
    long.title = "x".repeat(50);
    long.artist = None;
    long.duration = None;
    let q = queue_label(&long);
    assert_eq!(q, format!("123.  {}…  {:<25}       ", "x".repeat(39), ""));
}

#[test]
fn unshuffle_restores_added_order() {
    let mut app = app_with_queue(6);
    let added: Vec<String> = app.queue.songs.iter().map(|s| s.id.clone()).collect();
    app.dispatch(Action::NextTrack);
    app.shuffle_with_seed(3);
    app.shuffle_with_seed(99);
    app.dispatch(Action::Shuffle);
    let playing = app.queue.songs[app.queue.cursor].id.clone();
    app.dispatch(Action::Unshuffle);
    let now: Vec<String> = app.queue.songs.iter().map(|s| s.id.clone()).collect();
    assert_eq!(now, added);
    assert_eq!(app.queue.songs[app.queue.cursor].id, playing);
    app.dispatch(Action::ClearQueue);
    app.dispatch(Action::Unshuffle);
    assert!(app.queue.songs.is_empty());
}

#[test]
fn status_bar_host() {
    assert_eq!(server_host("http://music.local:4533"), "music.local:4533");
    assert_eq!(server_host("https://music.example.com"), "music.example.com");
    assert_eq!(server_host("http://http://x"), "x");
    assert_eq!(server_host("ftp://x"), "ftp://x");
    assert_eq!(server_host(""), "");
}

#[test]
fn visualizer_toggle_and_frame_poll() {
    let mut app = app_with_queue(1);
    assert!(!app.visualizer_visible);
    assert!(app.dispatch(Action::ToggleVisualizer).is_empty());
    assert!(app.visualizer_visible);
    app.dispatch(Action::ToggleVisualizer);
    assert!(!app.visualizer_visible);
    assert_eq!(frame_poll_ms(true), 33);
    assert_eq!(frame_poll_ms(false), 50);
    assert!(!flash_expired(3000));
    assert!(flash_expired(3001));
}
