use playterm::keybinds::{
    map_key, map_search_key, parse_key, KeyCode, KeySpec, Keybinds, CONTROL, SHIFT,
};
use playterm::action::{Action, Direction};
use playterm::app::Tab;
use playterm::config::{KeybindsSection, ThemeSection};
use playterm::kitty::{
    apc, art_strip_thumbnail_size, parse_cell_size_response, placeholder_row,
    visible_thumbnail_count,
};
use playterm::lyrics::{lyrics_from_response, parse_lrc, parse_lrc_line};
use playterm::models::{Song, SubsonicError};
use playterm::mpris::{
    dbus_track_path_for_song_id, image_ext, media_action, sniff_ext, track_object_path,
    ImageKind, MediaKey,
};
use playterm::subsonic::check_status;
use playterm::text::{format_clock, path_join};
use playterm::theme::{parse_hex, Rgb, Theme};
use playterm::ui_text::{format_quality, playlist_sections, sections, trunc, wrap_text};

fn song(id: &str) -> Song {
    Song {
        id: id.to_string(),
        title: format!("Title {id}"),
        album: None,
        artist: None,
        album_id: None,
        artist_id: None,
        track: None,
        disc_number: None,
        year: None,
        genre: None,
        cover_art: None,
        duration: None,
        bit_rate: None,
        content_type: None,
        suffix: None,
        size: None,
        path: None,
        starred: None,
    }
}

fn empty_keybinds() -> KeybindsSection {
    KeybindsSection {
        scroll_up: None,
        scroll_down: None,
        column_left: None,
        column_right: None,
        play_pause: None,
        next_track: None,
        prev_track: None,
        seek_forward: None,
        seek_backward: None,
        add_track: None,
        add_all: None,
        shuffle: None,
        unshuffle: None,
        clear_queue: None,
        search: None,
        volume_up: None,
        volume_down: None,
        tab_switch: None,
        tab_switch_reverse: None,
        go_to_home: None,
        go_to_browser: None,
        go_to_nowplaying: None,
        quit: None,
    }
}

#[test]
fn trunc_keeps_short_text() {
    assert_eq!(trunc("hello", 10), "hello");
    assert_eq!(trunc("abcde", 5), "abcde");
}

#[test]
fn trunc_marks_cut_text() {
    assert_eq!(trunc("hello world", 5), "hell…");
    assert_eq!(trunc("ab", 1), "…");
    assert_eq!(trunc("ab", 0), "");
    assert_eq!(trunc("", 0), "");
}

#[test]
fn wrap_text_breaks_at_spaces() {
    assert_eq!(wrap_text("hello world foo", 11), vec!["hello".to_string(), "world foo".to_string()]);
}

#[test]
fn wrap_text_cuts_long_words() {
    assert_eq!(
        wrap_text("abcdefgh", 3),
        vec!["abc".to_string(), "def".to_string(), "gh".to_string()]
    );
}

#[test]
fn wrap_text_edge_cases() {
    assert_eq!(wrap_text("abc", 0), vec!["abc".to_string()]);
    assert_eq!(wrap_text("", 5), vec![String::new()]);
    assert_eq!(wrap_text("short", 10), vec!["short".to_string()]);
}

#[test]
fn wrap_text_lines_fit_width() {
    let text = "the quick brown fox jumps over the lazy dog again and again";
    for w in 1..20usize {
        let lines = wrap_text(text, w);
        assert!(!lines.is_empty());
        for l in &lines {
            assert!(l.chars().count() <= w);
        }
    }
}

#[test]
fn format_quality_lossless_and_lossy() {
    let mut s = song("1");
    s.suffix = Some("flac".to_string());
    s.bit_rate = Some(900);
    assert_eq!(format_quality(&s), Some("FLAC".to_string()));
    s.suffix = Some("mp3".to_string());
    s.bit_rate = Some(320);
    assert_eq!(format_quality(&s), Some("320kbps".to_string()));
    s.bit_rate = None;
    assert_eq!(format_quality(&s), None);
}

#[test]
fn help_sections_content() {
    let s = sections();
    assert_eq!(s.len(), 6);
    assert_eq!(s[0].0, "Navigation");
    assert_eq!(s[0].1[0], ("j / k".to_string(), "Scroll up / down".to_string()));
    assert_eq!(s[5].0, "App");
    let p = playlist_sections();
    assert_eq!(p.len(), 1);
    assert_eq!(p[0].1.len(), 11);
    assert_eq!(p[0].1[10].0, "Escape / q");
}

#[test]
fn apc_plain_and_tmux() {
    assert_eq!(apc("a=d", false), "\x1b_Ga=d\x1b\\");
    assert_eq!(apc("a=d", true), "\x1bPtmux;\x1b\x1b_Ga=d\x1b\x1b\\\x1b\\");
}

#[test]
fn placeholder_row_encodes_id_and_row() {
    let r = placeholder_row(3, 0x010203, 0);
    assert_eq!(r, "\x1b[38;2;1;2;3m\u{10EEEE}\u{0305}\u{10EEEE}\u{10EEEE}\x1b[0m");
    let r1 = placeholder_row(1, 5, 1);
    assert_eq!(r1, "\x1b[38;2;0;0;5m\u{10EEEE}\u{030D}\x1b[0m");
    let far = placeholder_row(1, 0, 99);
    assert!(far.contains('\u{0305}'));
}

#[test]
fn cell_size_reply_parses() {
    assert_eq!(parse_cell_size_response("\x1b[6;20;10t"), Some((10, 20)));
    assert_eq!(parse_cell_size_response("6;0;10t"), None);
    assert_eq!(parse_cell_size_response("garbage"), None);
    assert_eq!(parse_cell_size_response("\x1b[6;20t"), None);
}

#[test]
fn art_strip_sizes() {
    assert_eq!(art_strip_thumbnail_size(None, 5), (5, 5));
    assert_eq!(art_strip_thumbnail_size(Some((9, 18)), 3), (3, 3));
    assert_eq!(visible_thumbnail_count(80, 10, 1), 7);
    assert_eq!(visible_thumbnail_count(3, 10, 1), 1);
    assert_eq!(visible_thumbnail_count(10, 0, 0), 1);
}

#[test]
fn track_paths_are_safe() {
    assert_eq!(track_object_path("al-1.x"), "/net/playterm/track/al_1_x");
    assert_eq!(track_object_path(""), "/net/playterm/track/unknown");
    assert_eq!(dbus_track_path_for_song_id("abc_9"), "/net/playterm/track/abc_9");
}

#[test]
fn sniff_image_signatures() {
    assert_eq!(sniff_ext(&[0xFF, 0xD8, 0xFF, 0x00]), ImageKind::Jpg);
    assert_eq!(sniff_ext(&[0x89, b'P', b'N', b'G', b'\r', b'\n', 0x1A, b'\n']), ImageKind::Png);
    assert_eq!(sniff_ext(b"GIF89a...."), ImageKind::Gif);
    assert_eq!(sniff_ext(b"RIFF1234WEBPxx"), ImageKind::Webp);
    assert_eq!(sniff_ext(&[1, 2]), ImageKind::Jpg);
    assert_eq!(image_ext(ImageKind::Webp), "webp");
}

#[test]
fn media_keys_map_to_actions() {
    assert_eq!(media_action(MediaKey::Toggle), Some(Action::PlayPause));
    assert_eq!(media_action(MediaKey::Stop), Some(Action::Quit));
    assert_eq!(media_action(MediaKey::SeekBackward), Some(Action::SeekBackward));
    assert_eq!(media_action(MediaKey::Other), None);
}

#[test]
fn hex_colours_parse() {
    assert_eq!(parse_hex("#ff8c00"), Some(Rgb { r: 255, g: 140, b: 0 }));
    assert_eq!(parse_hex(" 1a1a1a "), Some(Rgb { r: 26, g: 26, b: 26 }));
    assert_eq!(parse_hex("##0A0b0C"), Some(Rgb { r: 10, g: 11, b: 12 }));
    assert_eq!(parse_hex("+f+f+f"), Some(Rgb { r: 15, g: 15, b: 15 }));
    assert_eq!(parse_hex("#12345"), None);
    assert_eq!(parse_hex("gg0000"), None);
}

#[test]
fn theme_from_section_uses_defaults() {
    let sec = ThemeSection {
        dynamic: true,
        accent: Some("#000000".to_string()),
        background: Some("nonsense".to_string()),
        surface: None,
        foreground: None,
        dimmed: None,
        border: None,
        border_active: None,
    };
    let t = Theme::from_section(&sec);
    assert_eq!(t.accent, Rgb { r: 0, g: 0, b: 0 });
    assert_eq!(t.background, Rgb { r: 26, g: 26, b: 26 });
    assert_eq!(t.foreground, Rgb { r: 212, g: 208, b: 200 });
    assert!(t.dynamic);
}

#[test]
fn key_strings_parse() {
    assert_eq!(parse_key("j"), Some(KeySpec { code: KeyCode::Char('j'), modifiers: 0 }));
    assert_eq!(parse_key("Shift+a"), Some(KeySpec { code: KeyCode::Char('A'), modifiers: SHIFT }));
    assert_eq!(parse_key("shift+ab"), None);
    assert_eq!(parse_key("Tab"), Some(KeySpec { code: KeyCode::Tab, modifiers: 0 }));
    assert_eq!(parse_key("Space"), Some(KeySpec { code: KeyCode::Char(' '), modifiers: 0 }));
    assert_eq!(parse_key("  Left "), Some(KeySpec { code: KeyCode::Left, modifiers: 0 }));
    assert_eq!(parse_key("Foo"), None);
}

#[test]
fn key_spec_matching() {
    let upper = KeySpec::new(KeyCode::Char('N'));
    assert!(upper.matches(KeyCode::Char('N'), SHIFT));
    assert!(upper.matches(KeyCode::Char('N'), 0));
    let ctrl = KeySpec { code: KeyCode::Char('x'), modifiers: CONTROL };
    assert!(!ctrl.matches(KeyCode::Char('x'), 0));
    assert!(ctrl.matches(KeyCode::Char('x'), CONTROL | SHIFT));
    assert!(!ctrl.matches(KeyCode::Char('y'), CONTROL));
}

#[test]
fn key_spec_labels() {
    assert_eq!(KeySpec::new(KeyCode::Char('N')).display(), "S+n");
    assert_eq!(KeySpec::new(KeyCode::Char('x')).display(), "x");
    assert_eq!(KeySpec::new(KeyCode::Left).display(), "←");
    assert_eq!(KeySpec::new(KeyCode::Other).display(), "?");
}

#[test]
fn keybinds_defaults_and_overrides() {
    let mut sec = empty_keybinds();
    sec.quit = Some("Shift+q".to_string());
    sec.shuffle = Some("not a key".to_string());
    let kb = Keybinds::from_section(&sec);
    assert_eq!(kb.quit, KeySpec { code: KeyCode::Char('Q'), modifiers: SHIFT });
    assert_eq!(kb.shuffle, KeySpec::new(KeyCode::Char('x')));
    assert_eq!(kb.scroll_down, KeySpec::new(KeyCode::Char('j')));
    assert_eq!(kb.tab_switch, KeySpec::new(KeyCode::Tab));
}

#[test]
fn key_presses_map_to_actions() {
    let kb = Keybinds::from_section(&empty_keybinds());
    assert_eq!(map_key(KeyCode::Char('g'), 0, Tab::Browser, &kb), Action::Navigate(Direction::Top));
    assert_eq!(map_key(KeyCode::Right, 0, Tab::Browser, &kb), Action::FocusRight);
    assert_eq!(map_key(KeyCode::Right, 0, Tab::NowPlaying, &kb), Action::SeekForward);
    assert_eq!(map_key(KeyCode::Left, 0, Tab::NowPlaying, &kb), Action::SeekBackward);
    assert_eq!(map_key(KeyCode::Char('q'), 0, Tab::Browser, &kb), Action::Quit);
    assert_eq!(map_key(KeyCode::Char('A'), SHIFT, Tab::Browser, &kb), Action::AddAllToQueue);
    assert_eq!(map_key(KeyCode::Char('a'), 0, Tab::Browser, &kb), Action::AddToQueue);
    assert_eq!(map_key(KeyCode::Char('='), 0, Tab::Browser, &kb), Action::VolumeUp);
    assert_eq!(map_key(KeyCode::Char('~'), 0, Tab::Browser, &kb), Action::NoOp);
    assert_eq!(map_key(KeyCode::Enter, 0, Tab::Browser, &kb), Action::Select);
}

#[test]
fn search_keys_map_to_actions() {
    assert_eq!(map_search_key(KeyCode::Backspace), Action::SearchBackspace);
    assert_eq!(map_search_key(KeyCode::Char('x')), Action::SearchInput('x'));
    assert_eq!(map_search_key(KeyCode::Esc), Action::SearchCancel);
    assert_eq!(map_search_key(KeyCode::Up), Action::NoOp);
}

#[test]
fn lrc_line_parses() {
    let l = parse_lrc_line("[01:02.50] Hello ").unwrap();
    assert_eq!(l.time_ms, Some(62_500));
    assert_eq!(l.text, "Hello");
    let e = parse_lrc_line("[00:10.5]").unwrap();
    assert_eq!(e.time_ms, Some(10_050));
    assert_eq!(e.text, "");
    assert!(parse_lrc_line("[1:2] x").is_none());
    assert!(parse_lrc_line("no bracket").is_none());
    assert!(parse_lrc_line("[a:b.c] x").is_none());
}

#[test]
fn lrc_text_parses() {
    let v = parse_lrc("[00:01.00] a\nbad\n[00:02.00] b\r\n");
    assert_eq!(v.len(), 2);
    assert_eq!(v[0].time_ms, Some(1000));
    assert_eq!(v[1].text, "b");
}

#[test]
fn lyrics_choice_prefers_synced() {
    assert!(lyrics_from_response(false, Some("[00:01.00] a".into()), None).is_empty());
    let synced = lyrics_from_response(true, Some("[00:01.00] a".into()), Some("p".into()));
    assert_eq!(synced.len(), 1);
    assert_eq!(synced[0].time_ms, Some(1000));
    let plain = lyrics_from_response(true, Some(String::new()), Some("x\ny".into()));
    assert_eq!(plain.len(), 2);
    assert_eq!(plain[1].time_ms, None);
    assert_eq!(plain[1].text, "y");
    assert!(lyrics_from_response(true, None, None).is_empty());
}

#[test]
fn clock_labels() {
    assert_eq!(format_clock(65), "1:05");
    assert_eq!(format_clock(600), "10:00");
    assert_eq!(format_clock(0), "0:00");
}

#[test]
fn path_joining() {
    assert_eq!(path_join("/home/u", ".config"), "/home/u/.config");
    assert_eq!(path_join("/home/u/", "x"), "/home/u/x");
    assert_eq!(path_join("/a", "/b"), "/b");
}

#[test]
fn subsonic_status_errors() {
    assert!(check_status("ok", None).is_ok());
    let e = SubsonicError { code: 40, message: "Wrong".to_string() };
    assert_eq!(check_status("failed", Some(&e)), Err("Subsonic error 40: Wrong".to_string()));
    assert_eq!(check_status("failed", None), Err("Subsonic returned non-ok status: failed".to_string()));
}
