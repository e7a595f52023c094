//! What the desktop's media interface (MPRIS) is told about playback: the D-Bus object
//! path of a track, the playback snapshot, the cover to export, and the control keys.
use vstd::prelude::*;
use crate::action::Action;
use crate::app::App;
use crate::text::{chars_of, push_char, push_str, str_eq};

verus! {

/// Messages to the D-Bus thread.
pub enum MprisNotify {
    Refresh,
    Seeked { position_micros: i64 },
    Shutdown,
}

/// A song id character as it may stand in a D-Bus object path: ASCII letters, digits and
/// `_` are kept, anything else becomes `_`.
pub open spec fn path_char(c: char) -> char {
    if ('a' <= c && c <= 'z') || ('A' <= c && c <= 'Z') || ('0' <= c && c <= '9') || c == '_' {
        c
    } else {
        '_'
    }
}

/// The D-Bus object path of a track: `/net/playterm/track/<id>`, the id made safe, or
/// `unknown` for an empty id.
pub open spec fn track_path_spec(song_id: Seq<char>) -> Seq<char> {
    "/net/playterm/track/"@ + if song_id.len() == 0 {
        "unknown"@
    } else {
        Seq::new(song_id.len(), |i: int| path_char(song_id[i]))
    }
}

/// The D-Bus object path of a track (see `track_path_spec`).
pub fn track_object_path(song_id: &str) -> (p: String)
    ensures
        p@ == track_path_spec(song_id@),
{
    let v = chars_of(song_id);
    let mut p = String::new();
    push_str(&mut p, "/net/playterm/track/");
    if v.len() == 0 {
        push_str(&mut p, "unknown");
        return p;
    }
    let ghost head = p@;
    let mut i: usize = 0;
    while i < v.len()
        invariant
            i <= v@.len(),
            v@ == song_id@,
            p@ == head + Seq::new(i as nat, |k: int| path_char(v@[k])),
        decreases v.len() - i,
    {
        let c = v[i];
        let d = if ('a' <= c && c <= 'z') || ('A' <= c && c <= 'Z') || ('0' <= c && c <= '9') || c
            == '_' {
            c
        } else {
            '_'
        };
        push_char(&mut p, d);
        assert(Seq::new((i + 1) as nat, |k: int| path_char(v@[k])) == Seq::new(
            i as nat,
            |k: int| path_char(v@[k]),
        ).push(path_char(v@[i as int])));
        i = i + 1;
    }
    p
}

/// The D-Bus object path of a song's track.
pub fn dbus_track_path_for_song_id(song_id: &str) -> (p: String)
    ensures
        p@ == track_path_spec(song_id@),
{
    track_object_path(song_id)
}

/// Image formats recognised by their first bytes.
#[derive(Clone, Copy, PartialEq, Eq, Structural, Debug)]
pub enum ImageKind {
    Jpg,
    Png,
    Gif,
    Webp,
}

/// The format of image bytes by their signature; JPEG when none matches.
pub open spec fn sniff_spec(b: Seq<u8>) -> ImageKind {
    if b.len() >= 3 && b[0] == 0xFF && b[1] == 0xD8 && b[2] == 0xFF {
        ImageKind::Jpg
    } else if b.len() >= 8 && b.take(8) == seq![0x89u8, 0x50, 0x4E, 0x47, 0x0D, 0x0A, 0x1A, 0x0A] {
        ImageKind::Png
    } else if b.len() >= 6 && (b.take(6) == seq![0x47u8, 0x49, 0x46, 0x38, 0x37, 0x61] || b.take(6)
        == seq![0x47u8, 0x49, 0x46, 0x38, 0x39, 0x61]) {
        ImageKind::Gif
    } else if b.len() >= 12 && b.take(4) == seq![0x52u8, 0x49, 0x46, 0x46] && b.subrange(8, 12)
        == seq![0x57u8, 0x45, 0x42, 0x50] {
        ImageKind::Webp
    } else {
        ImageKind::Jpg
    }
}

/// Whether `b[at..at + sig.len()]` equals `sig`.
fn bytes_at(b: &[u8], at: usize, sig: &[u8]) -> (r: bool)
    requires
        at + sig@.len() <= b@.len(),
    ensures
        r == (b@.subrange(at as int, at + sig@.len()) == sig@),
{
    let n = b.len();
    let mut i: usize = 0;
    while i < sig.len()
        invariant
            i <= sig@.len(),
            at + sig@.len() <= b@.len(),
            n == b@.len(),
            forall|j: int| 0 <= j < i ==> b@[at + j] == sig@[j],
        decreases sig.len() - i,
    {
        if b[at + i] != sig[i] {
            assert(b@.subrange(at as int, at + sig@.len())[i as int] != sig@[i as int]);
            return false;
        }
        i = i + 1;
    }
    assert(b@.subrange(at as int, at + sig@.len()) =~= sig@);
    true
}

/// The file extension for image bytes, by their signature (see `sniff_spec`).
pub fn sniff_ext(bytes: &[u8]) -> (k: ImageKind)
    ensures
        k == sniff_spec(bytes@),
{
    let n = bytes.len();
    if n >= 3 && bytes[0] == 0xFF && bytes[1] == 0xD8 && bytes[2] == 0xFF {
        return ImageKind::Jpg;
    }
    if n >= 8 {
        let png: [u8; 8] = [0x89, 0x50, 0x4E, 0x47, 0x0D, 0x0A, 0x1A, 0x0A];
        assert(png@ == seq![0x89u8, 0x50, 0x4E, 0x47, 0x0D, 0x0A, 0x1A, 0x0A]);
        assert(bytes@.subrange(0, 8) == bytes@.take(8));
        if bytes_at(bytes, 0, png.as_slice()) {
            return ImageKind::Png;
        }
    }
    if n >= 6 {
        let g7: [u8; 6] = [0x47, 0x49, 0x46, 0x38, 0x37, 0x61];
        let g9: [u8; 6] = [0x47, 0x49, 0x46, 0x38, 0x39, 0x61];
        assert(g7@ == seq![0x47u8, 0x49, 0x46, 0x38, 0x37, 0x61]);
        assert(g9@ == seq![0x47u8, 0x49, 0x46, 0x38, 0x39, 0x61]);
        assert(bytes@.subrange(0, 6) == bytes@.take(6));
        if bytes_at(bytes, 0, g7.as_slice()) || bytes_at(bytes, 0, g9.as_slice()) {
            return ImageKind::Gif;
        }
    }
    if n >= 12 {
        let riff: [u8; 4] = [0x52, 0x49, 0x46, 0x46];
        let webp: [u8; 4] = [0x57, 0x45, 0x42, 0x50];
        assert(riff@ == seq![0x52u8, 0x49, 0x46, 0x46]);
        assert(webp@ == seq![0x57u8, 0x45, 0x42, 0x50]);
        assert(bytes@.subrange(0, 4) == bytes@.take(4));
        if bytes_at(bytes, 0, riff.as_slice()) && bytes_at(bytes, 8, webp.as_slice()) {
            return ImageKind::Webp;
        }
    }
    ImageKind::Jpg
}

/// The extension text of an image kind.
pub fn image_ext(k: ImageKind) -> (s: &'static str)
    ensures
        s@ == (match k {
            ImageKind::Jpg => "jpg"@,
            ImageKind::Png => "png"@,
            ImageKind::Gif => "gif"@,
            ImageKind::Webp => "webp"@,
        }),
{
    match k {
        ImageKind::Jpg => "jpg",
        ImageKind::Png => "png",
        ImageKind::Gif => "gif",
        ImageKind::Webp => "webp",
    }
}

/// What the media interface reports for playback.
#[derive(Clone, Copy, PartialEq, Eq, Structural, Debug)]
pub enum PlayStatus {
    Playing,
    Paused,
    Stopped,
}

/// The playback state shown to the desktop (the volume in percent).
pub struct MprisState {
    pub has_track: bool,
    pub song_id: String,
    pub track_path: String,
    pub title: String,
    pub artist: String,
    pub album: String,
    pub track_number: Option<u32>,
    pub length_micros: i64,
    pub position_micros: i64,
    pub volume_percent: u8,
    pub can_go_next: bool,
    pub can_go_previous: bool,
    pub can_play: bool,
    pub can_pause: bool,
    pub can_seek: bool,
    pub status: PlayStatus,
}

/// The characters of an optional string, empty when absent.
pub open spec fn or_empty(o: Option<String>) -> Seq<char> {
    match o {
        Some(s) => s@,
        None => Seq::empty(),
    }
}

/// The snapshot of a state: the playing song's details, the position, the volume, what
/// the controls can do, and whether playback is stopped, paused or playing.
pub open spec fn mpris_state_spec(a: App, s: MprisState) -> bool {
    &&& match a.playback.current_song {
        Some(t) => {
            &&& s.has_track
            &&& s.song_id@ == t.id@
            &&& s.track_path@ == track_path_spec(t.id@)
            &&& s.title@ == t.title@
            &&& s.artist@ == or_empty(t.artist)
            &&& s.album@ == or_empty(t.album)
            &&& s.track_number == t.track
            &&& s.length_micros == (match t.duration {
                Some(d) => d * 1_000_000,
                None => 0,
            })
        },
        None => !s.has_track && s.song_id@.len() == 0 && s.track_path@.len() == 0
            && s.title@.len() == 0 && s.artist@.len() == 0 && s.album@.len() == 0
            && s.track_number.is_none() && s.length_micros == 0,
    }
    &&& s.position_micros == #[verifier::truncate] ((a.playback.elapsed_ms * 1000) as i64)
    &&& s.volume_percent == a.config.default_volume
    &&& s.can_go_next == (a.queue.cursor + 1 < a.queue.songs@.len())
    &&& s.can_go_previous == (a.queue.cursor > 0)
    &&& s.can_play == a.queue.current_spec().is_some()
    &&& s.can_pause == a.playback.player_loaded
    &&& s.can_seek == (a.playback.player_loaded && a.playback.total_ms.is_some())
    &&& s.status == (if a.playback.current_song.is_none() || !a.playback.player_loaded {
        PlayStatus::Stopped
    } else if a.playback.paused {
        PlayStatus::Paused
    } else {
        PlayStatus::Playing
    })
}

fn or_empty_string(o: &Option<String>) -> (r: String)
    ensures
        r@ == or_empty(*o),
{
    match o {
        Some(s) => s.clone(),
        None => String::new(),
    }
}

impl App {
    /// The playback state for the media interface (see `mpris_state_spec`).
    pub fn mpris_state(&self) -> (s: MprisState)
        requires
            self.wf(),
        ensures
            mpris_state_spec(*self, s),
    {
        let (has, id, path, title, artist, album, num, len) = match &self.playback.current_song {
            Some(t) => (
                true,
                t.id.clone(),
                dbus_track_path_for_song_id(t.id.as_str()),
                t.title.clone(),
                or_empty_string(&t.artist),
                or_empty_string(&t.album),
                t.track,
                match t.duration {
                    Some(d) => d as i64 * 1_000_000,
                    None => 0,
                },
            ),
            None => (
                false,
                String::new(),
                String::new(),
                String::new(),
                String::new(),
                String::new(),
                None,
                0,
            ),
        };
        let n = self.queue.songs.len();
        let status = if self.playback.current_song.is_none() || !self.playback.player_loaded {
            PlayStatus::Stopped
        } else if self.playback.paused {
            PlayStatus::Paused
        } else {
            PlayStatus::Playing
        };
        MprisState {
            has_track: has,
            song_id: id,
            track_path: path,
            title,
            artist,
            album,
            track_number: num,
            length_micros: len,
            position_micros: #[verifier::truncate] ((self.playback.elapsed_ms as u128 * 1000) as i64),
            volume_percent: self.config.default_volume,
            can_go_next: self.queue.cursor + 1 < n,
            can_go_previous: self.queue.cursor > 0,
            can_play: self.queue.current().is_some(),
            can_pause: self.playback.player_loaded,
            can_seek: self.playback.player_loaded && self.playback.total_ms.is_some(),
            status,
        }
    }

    /// The id of the cover to export for the desktop: the playing song's cover when it is
    /// the cached one and the cache holds bytes; `None` means any exported cover must go.
    pub fn cover_to_export(&self) -> (r: Option<String>)
        ensures
            r.is_some() == (match self.playback.current_song {
                Some(t) => match (t.cover_art, self.art_cache) {
                    (Some(want), Some((have, bytes))) => have@ == want@ && bytes@.len() > 0,
                    _ => false,
                },
                None => false,
            }),
            r.is_some() ==> r.unwrap()@ == self.playback.current_song.unwrap().cover_art.unwrap()@,
    {
        let song = match &self.playback.current_song {
            Some(s) => s,
            None => return None,
        };
        let want = match &song.cover_art {
            Some(w) => w,
            None => return None,
        };
        match &self.art_cache {
            Some((have, bytes)) => if str_eq(have.as_str(), want.as_str()) && bytes.len() > 0 {
                Some(want.clone())
            } else {
                None
            },
            None => None,
        }
    }
}

/// A request from the desktop's media interface (the volume already in percent).
pub enum MprisControl {
    PlayPause,
    Play,
    Pause,
    Stop,
    Next,
    Previous,
    /// Move by this many microseconds (negative: back).
    SeekDelta(i64),
    /// Jump to a position, for the track with this object path only.
    SetPosition { track_path: String, position_micros: i64 },
    SetVolume(u8),
    Quit,
}

/// The position a relative seek of `delta_micros` asks for, in milliseconds (whole
/// milliseconds of the delta, rounded toward zero), from `elapsed_ms`, not before the
/// start.
pub open spec fn seek_delta_target(elapsed_ms: u64, delta_micros: i64) -> int {
    let ms: int = if delta_micros >= 0 {
        delta_micros / 1000
    } else {
        -((-delta_micros) / 1000)
    };
    let t = elapsed_ms + ms;
    if t < 0 {
        0
    } else {
        t
    }
}

/// The action a media-interface request asks for: play-pause toggles; play and pause
/// toggle only when a song is loaded in the other state; stop and quit quit; a seek goes
/// to the resulting position (clamped by the seek itself); a position applies only to
/// the playing track; the volume is not handled.
pub open spec fn control_action_spec(a: App, c: MprisControl) -> Option<Action> {
    let loaded = a.playback.current_song.is_some() && a.playback.player_loaded;
    match c {
        MprisControl::PlayPause => Some(Action::PlayPause),
        MprisControl::Play => if loaded && a.playback.paused {
            Some(Action::PlayPause)
        } else {
            None
        },
        MprisControl::Pause => if loaded && !a.playback.paused {
            Some(Action::PlayPause)
        } else {
            None
        },
        MprisControl::Stop | MprisControl::Quit => Some(Action::Quit),
        MprisControl::Next => Some(Action::NextTrack),
        MprisControl::Previous => Some(Action::PrevTrack),
        MprisControl::SeekDelta(d) => if seek_delta_target(a.playback.elapsed_ms, d) <= u64::MAX {
            Some(Action::SeekTo(seek_delta_target(a.playback.elapsed_ms, d) as u64))
        } else {
            Some(Action::SeekTo(u64::MAX))
        },
        MprisControl::SetPosition { track_path, position_micros } => match a.playback.current_song {
            Some(t) => if track_path@ == track_path_spec(t.id@) && position_micros >= 0 {
                Some(Action::SeekTo((position_micros / 1000) as u64))
            } else {
                None
            },
            None => None,
        },
        MprisControl::SetVolume(_) => None,
    }
}

impl App {
    /// The action for a media-interface request (see `control_action_spec`).
    pub fn control_action(&self, c: MprisControl) -> (r: Option<Action>)
        ensures
            r == control_action_spec(*self, c),
    {
        let loaded = self.playback.current_song.is_some() && self.playback.player_loaded;
        match c {
            MprisControl::PlayPause => Some(Action::PlayPause),
            MprisControl::Play => if loaded && self.playback.paused {
                Some(Action::PlayPause)
            } else {
                None
            },
            MprisControl::Pause => if loaded && !self.playback.paused {
                Some(Action::PlayPause)
            } else {
                None
            },
            MprisControl::Stop | MprisControl::Quit => Some(Action::Quit),
            MprisControl::Next => Some(Action::NextTrack),
            MprisControl::Previous => Some(Action::PrevTrack),
            MprisControl::SeekDelta(d) => {
                let ms: i64 = d / 1000;
                let e = self.playback.elapsed_ms;
                let t: u64 = if ms >= 0 {
                    e.saturating_add(ms as u64)
                } else {
                    let back: u64 = if ms == i64::MIN {
                        0x8000_0000_0000_0000u64
                    } else {
                        (-ms) as u64
                    };
                    if back > e {
                        0
                    } else {
                        e - back
                    }
                };
                Some(Action::SeekTo(t))
            },
            MprisControl::SetPosition { track_path, position_micros } => match &self.playback.current_song {
                Some(t) => {
                    let p = track_object_path(t.id.as_str());
                    if str_eq(track_path.as_str(), p.as_str()) && position_micros >= 0 {
                        Some(Action::SeekTo((position_micros / 1000) as u64))
                    } else {
                        None
                    }
                },
                None => None,
            },
            MprisControl::SetVolume(_) => None,
        }
    }
}

/// A media key or control request from the operating system.
#[derive(Clone, Copy, PartialEq, Eq, Structural, Debug)]
pub enum MediaKey {
    Play,
    Pause,
    Toggle,
    Next,
    Previous,
    SeekForward,
    SeekBackward,
    Stop,
    Quit,
    /// Anything else (volume, position, open, raise, relative seek).
    Other,
}

/// The action of a media key: play, pause and toggle all toggle playback; stop quits;
/// the rest is ignored.
pub fn media_action(key: MediaKey) -> (a: Option<Action>)
    ensures
        a == (match key {
            MediaKey::Play | MediaKey::Pause | MediaKey::Toggle => Some(Action::PlayPause),
            MediaKey::Next => Some(Action::NextTrack),
            MediaKey::Previous => Some(Action::PrevTrack),
            MediaKey::SeekForward => Some(Action::SeekForward),
            MediaKey::SeekBackward => Some(Action::SeekBackward),
            MediaKey::Stop | MediaKey::Quit => Some(Action::Quit),
            MediaKey::Other => None,
        }),
{
    match key {
        MediaKey::Play | MediaKey::Pause | MediaKey::Toggle => Some(Action::PlayPause),
        MediaKey::Next => Some(Action::NextTrack),
        MediaKey::Previous => Some(Action::PrevTrack),
        MediaKey::SeekForward => Some(Action::SeekForward),
        MediaKey::SeekBackward => Some(Action::SeekBackward),
        MediaKey::Stop | MediaKey::Quit => Some(Action::Quit),
        MediaKey::Other => None,
    }
}

} // verus!
