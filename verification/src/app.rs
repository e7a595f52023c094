//! The interface state machine: what every action, library update and player event
//! does to the state, and which outside work (fetches, player commands) it asks for.
use vstd::prelude::*;

use crate::action::{Action, Direction};
use crate::config::Config;
use crate::models::{Album, Artist, LyricLine, Song};
use crate::player::{PlayerCommand, PlayerEvent};
use crate::state::{add_order, LibraryState, LoadingState, PlaybackState, QueueState, selected_of};
use crate::layout::{Rect, bar_columns, browser_columns, halves, layout_spec, split_spec};
use crate::shuffle::{fisher_yates, lcg_next, lcg_step, lemma_fisher_yates, shuffle_songs, swap_songs, swapped};
use crate::text::{clock_label, chars_of, contains, contains_seq, lowercase, to_lowercase};

verus! {

// ── Tab / BrowserColumn ───────────────────────────────────────────────────────

/// The two tabs of the interface.
#[derive(PartialEq, Eq, Structural, Clone, Copy, Debug)]
pub enum Tab {
    Browser,
    NowPlaying,
}

impl Tab {
    /// The other tab.
    pub fn toggle(self) -> (r: Tab)
        ensures
            r == (match self {
                Tab::Browser => Tab::NowPlaying,
                Tab::NowPlaying => Tab::Browser,
            }),
    {
        match self {
            Tab::Browser => Tab::NowPlaying,
            Tab::NowPlaying => Tab::Browser,
        }
    }
}

/// Toggling twice returns to the starting tab.
pub proof fn law_toggle_involutive(t: Tab)
    ensures
        (match (match t {
            Tab::Browser => Tab::NowPlaying,
            Tab::NowPlaying => Tab::Browser,
        }) {
            Tab::Browser => Tab::NowPlaying,
            Tab::NowPlaying => Tab::Browser,
        }) == t,
{
}

/// The three browser columns, left to right.
#[derive(PartialEq, Eq, Structural, Clone, Copy, Debug)]
pub enum BrowserColumn {
    Artists,
    Albums,
    Tracks,
}

/// One column to the left, staying at the leftmost.
pub open spec fn column_left(c: BrowserColumn) -> BrowserColumn {
    match c {
        BrowserColumn::Artists => BrowserColumn::Artists,
        BrowserColumn::Albums => BrowserColumn::Artists,
        BrowserColumn::Tracks => BrowserColumn::Albums,
    }
}

/// One column to the right, staying at the rightmost.
pub open spec fn column_right(c: BrowserColumn) -> BrowserColumn {
    match c {
        BrowserColumn::Artists => BrowserColumn::Albums,
        BrowserColumn::Albums => BrowserColumn::Tracks,
        BrowserColumn::Tracks => BrowserColumn::Tracks,
    }
}

impl BrowserColumn {
    /// The column to the left (Artists stays Artists).
    pub fn left(self) -> (r: Self)
        ensures
            r == column_left(self),
    {
        match self {
            BrowserColumn::Artists => BrowserColumn::Artists,
            BrowserColumn::Albums => BrowserColumn::Artists,
            BrowserColumn::Tracks => BrowserColumn::Albums,
        }
    }

    /// The column to the right (Tracks stays Tracks).
    pub fn right(self) -> (r: Self)
        ensures
            r == column_right(self),
    {
        match self {
            BrowserColumn::Artists => BrowserColumn::Albums,
            BrowserColumn::Albums => BrowserColumn::Tracks,
            BrowserColumn::Tracks => BrowserColumn::Tracks,
        }
    }
}

/// Moving right then left returns to the start, except from the rightmost column;
/// moving left then right returns to the start, except from the leftmost column.
pub proof fn law_columns_inverse(c: BrowserColumn)
    ensures
        c != BrowserColumn::Tracks ==> column_left(column_right(c)) == c,
        c != BrowserColumn::Artists ==> column_right(column_left(c)) == c,
{
}

// ── Search ────────────────────────────────────────────────────────────────────

/// The search prompt.
pub struct SearchMode {
    pub active: bool,
    pub query: String,
    /// Index within the filtered result list that is currently selected.
    pub selected: usize,
}

// ── Messages and effects ──────────────────────────────────────────────────────

/// Results delivered by background fetch tasks.
#[allow(inconsistent_fields)]
pub enum LibraryUpdate {
    Artists(Result<Vec<Artist>, String>),
    Albums { artist_id: String, result: Result<Vec<Album>, String> },
    Tracks { album_id: String, result: Result<Vec<Song>, String> },
    /// All tracks across every album of an artist; `start_playing` when the queue was
    /// empty at request time.
    AllTracksForArtist { songs: Vec<Song>, start_playing: bool },
    /// Raw image bytes for a cover art id.
    CoverArt { cover_id: String, bytes: Vec<u8> },
    /// Lyrics for a song; empty when the track has none.
    Lyrics { song_id: String, lines: Vec<LyricLine> },
    /// Track bytes downloaded for the offline cache.
    CacheTrack { song_id: String, album_id: String, bytes: Vec<u8> },
}

/// Outside work requested by a state transition, to be carried out by the caller.
pub enum Effect {
    /// Fetch the albums of an artist; answer with `LibraryUpdate::Albums`.
    FetchAlbums(String),
    /// Fetch the tracks of an album; answer with `LibraryUpdate::Tracks`.
    FetchTracks(String),
    /// Fetch every track of an artist; answer with `LibraryUpdate::AllTracksForArtist`.
    FetchAllTracksForArtist { artist_id: String, start_playing: bool },
    /// Fetch cover art; answer with `LibraryUpdate::CoverArt`.
    FetchCoverArt(String),
    /// Fetch lyrics; answer with `LibraryUpdate::Lyrics`.
    FetchLyrics { song_id: String, artist: String, title: String, album: String },
    /// Start playing `song` (resolve its URL, send `PlayUrl` with `gen`).
    Play { song: Song, gen: u64 },
    /// Gapless pre-load of the next song.
    EnqueueNext { song_id: String, duration_ms: Option<u64> },
    /// Send a command to the player.
    Player(PlayerCommand),
    /// Download a song into the offline cache unless it is cached already.
    CacheDownload { song_id: String, album_id: String },
    /// Store downloaded bytes in the offline cache.
    CachePut { song_id: String, album_id: String, bytes: Vec<u8> },
    /// Derive the dynamic accent from the cached cover art.
    AccentFromArt,
    /// Drop the dynamic accent (no art for the current track).
    AccentClear,
    /// Dynamic accent switched on (`true`) or off.
    DynamicTheme(bool),
    /// A player error to report.
    ReportError(String),
}

// ── Filtering helpers ─────────────────────────────────────────────────────────

/// The characters of each string.
pub open spec fn views(v: Seq<String>) -> Seq<Seq<char>> {
    Seq::new(v.len(), |i: int| v[i]@)
}

/// The characters of an optional string.
pub open spec fn opt_view(o: Option<String>) -> Option<Seq<char>> {
    match o {
        Some(s) => Some(s@),
        None => None,
    }
}

/// An item name passes the active filter: no filter, or its lowercase form contains it.
pub open spec fn matches_filter(name: Seq<char>, q: Option<Seq<char>>) -> bool {
    match q {
        None => true,
        Some(q) => contains_seq(lowercase(name), q),
    }
}

/// Indices (ascending) of the names that pass the filter.
pub open spec fn visible(names: Seq<Seq<char>>, q: Option<Seq<char>>) -> Seq<usize>
    decreases names.len(),
{
    if names.len() == 0 {
        seq![]
    } else {
        let v = visible(names.drop_last(), q);
        if matches_filter(names.last(), q) {
            v.push((names.len() - 1) as usize)
        } else {
            v
        }
    }
}

/// Every visible index is in range.
pub proof fn lemma_visible_in_range(names: Seq<Seq<char>>, q: Option<Seq<char>>)
    ensures
        forall|i: int|
            0 <= i < visible(names, q).len() ==> (#[trigger] visible(names, q)[i]) < names.len(),
        visible(names, q).len() <= names.len(),
    decreases names.len(),
{
    if names.len() > 0 {
        lemma_visible_in_range(names.drop_last(), q);
    }
}

/// Names of artists.
pub open spec fn artist_names(v: Seq<Artist>) -> Seq<Seq<char>> {
    Seq::new(v.len(), |i: int| v[i].name@)
}

/// Names of albums.
pub open spec fn album_names(v: Seq<Album>) -> Seq<Seq<char>> {
    Seq::new(v.len(), |i: int| v[i].name@)
}

/// Titles of songs.
pub open spec fn song_titles(v: Seq<Song>) -> Seq<Seq<char>> {
    Seq::new(v.len(), |i: int| v[i].title@)
}

fn name_list_of_artists(v: &Vec<Artist>) -> (r: Vec<String>)
    ensures
        views(r@) == artist_names(v@),
{
    let mut r: Vec<String> = Vec::new();
    let mut i: usize = 0;
    while i < v.len()
        invariant
            i <= v.len(),
            r@.len() == i,
            forall|j: int| 0 <= j < i ==> (#[trigger] r@[j])@ == v@[j].name@,
        decreases v.len() - i,
    {
        r.push(v[i].name.clone());
        i = i + 1;
    }
    assert(views(r@) =~= artist_names(v@));
    r
}

fn name_list_of_albums(v: &Vec<Album>) -> (r: Vec<String>)
    ensures
        views(r@) == album_names(v@),
{
    let mut r: Vec<String> = Vec::new();
    let mut i: usize = 0;
    while i < v.len()
        invariant
            i <= v.len(),
            r@.len() == i,
            forall|j: int| 0 <= j < i ==> (#[trigger] r@[j])@ == v@[j].name@,
        decreases v.len() - i,
    {
        r.push(v[i].name.clone());
        i = i + 1;
    }
    assert(views(r@) =~= album_names(v@));
    r
}

fn title_list_of_songs(v: &Vec<Song>) -> (r: Vec<String>)
    ensures
        views(r@) == song_titles(v@),
{
    let mut r: Vec<String> = Vec::new();
    let mut i: usize = 0;
    while i < v.len()
        invariant
            i <= v.len(),
            r@.len() == i,
            forall|j: int| 0 <= j < i ==> (#[trigger] r@[j])@ == v@[j].title@,
        decreases v.len() - i,
    {
        r.push(v[i].title.clone());
        i = i + 1;
    }
    assert(views(r@) =~= song_titles(v@));
    r
}

/// Whether `name` passes the filter `q`.
pub fn name_matches(name: &String, q: &Option<String>) -> (b: bool)
    ensures
        b == matches_filter(name@, opt_view(*q)),
{
    match q {
        None => true,
        Some(q) => {
            let low = to_lowercase(name.as_str());
            let lc = chars_of(low.as_str());
            let qc = chars_of(q.as_str());
            contains(&lc, &qc)
        },
    }
}

/// Indices of the names that pass the filter, ascending.
pub fn visible_indices(names: &Vec<String>, q: &Option<String>) -> (r: Vec<usize>)
    ensures
        r@ == visible(views(names@), opt_view(*q)),
{
    let mut r: Vec<usize> = Vec::new();
    let mut i: usize = 0;
    while i < names.len()
        invariant
            i <= names.len(),
            r@ == visible(views(names@).take(i as int), opt_view(*q)),
        decreases names.len() - i,
    {
        let ghost t = views(names@).take(i + 1);
        assert(t.drop_last() == views(names@).take(i as int));
        assert(t.last() == names@[i as int]@);
        if name_matches(&names[i], q) {
            r.push(i);
        }
        i = i + 1;
    }
    assert(views(names@).take(names.len() as int) == views(names@));
    r
}

/// The first name whose lowercase form contains `q`.
fn first_match_in(names: &Vec<String>, q: &String) -> (r: Option<usize>)
    ensures
        r == first_match(views(names@), Some(q@)),
        r matches Some(k) ==> k < names@.len(),
{
    let filter = Some(q.clone());
    let idx = visible_indices(names, &filter);
    proof {
        lemma_visible_in_range(views(names@), Some(q@));
    }
    if idx.len() > 0 {
        Some(idx[0])
    } else {
        None
    }
}

/// Position of the selected index within the visible list, or 0 when absent.
pub open spec fn pos_in(idx: Seq<usize>, sel: Option<usize>) -> int {
    match sel {
        Some(s) => match idx.index_of_first(s) {
            Some(p) => p,
            None => 0,
        },
        None => 0,
    }
}

/// Position after moving in direction `dir` within a list of `n` entries.
pub open spec fn nav_pos(cur: int, n: int, dir: Direction) -> int {
    match dir {
        Direction::Up => if cur > 0 {
            cur - 1
        } else {
            0
        },
        Direction::Down => if cur + 1 < n - 1 {
            cur + 1
        } else {
            n - 1
        },
        Direction::Top => 0,
        Direction::Bottom => n - 1,
    }
}

/// Moving within a list of `n` entries keeps the selection in the list; Up and Down move
/// it by exactly one entry, stopping at the first and last; Top and Bottom go to the
/// ends; away from the ends a step Down is undone by a step Up, and the other way round.
pub proof fn law_navigation_steps(p: int, n: int)
    requires
        0 <= p < n,
    ensures
        0 <= nav_pos(p, n, Direction::Up) < n,
        0 <= nav_pos(p, n, Direction::Down) < n,
        0 <= nav_pos(p, n, Direction::Top) < n,
        0 <= nav_pos(p, n, Direction::Bottom) < n,
        p > 0 ==> nav_pos(p, n, Direction::Up) == p - 1,
        p == 0 ==> nav_pos(p, n, Direction::Up) == 0,
        p + 1 < n ==> nav_pos(p, n, Direction::Down) == p + 1,
        p + 1 == n ==> nav_pos(p, n, Direction::Down) == p,
        nav_pos(p, n, Direction::Top) == 0,
        nav_pos(p, n, Direction::Bottom) == n - 1,
        p + 1 < n ==> nav_pos(nav_pos(p, n, Direction::Down), n, Direction::Up) == p,
        p > 0 ==> nav_pos(nav_pos(p, n, Direction::Up), n, Direction::Down) == p,
{
}

/// Position of the first occurrence of `s` in `idx`.
pub fn position_of(idx: &Vec<usize>, s: usize) -> (r: Option<usize>)
    ensures
        match r {
            Some(p) => idx@.index_of_first(s) == Some(p as int),
            None => idx@.index_of_first(s).is_none(),
        },
{
    proof {
        idx@.index_of_first_ensures(s);
    }
    let mut p: usize = 0;
    while p < idx.len()
        invariant
            p <= idx.len(),
            forall|j: int| 0 <= j < p ==> idx@[j] != s,
        decreases idx.len() - p,
    {
        if idx[p] == s {
            proof {
                idx@.index_of_first_ensures(s);
                assert(idx@.contains(s)) by {
                    assert(idx@[p as int] == s);
                }
                let k = idx@.index_of_first(s).unwrap();
                assert(k == p as int) by {
                    if k < p as int {
                        assert(idx@[k] != s);
                    }
                    if k > p as int {
                        assert(idx@[p as int] != s);
                    }
                }
            }
            return Some(p);
        }
        p = p + 1;
    }
    proof {
        if idx@.contains(s) {
            let j = choose|j: int| 0 <= j < idx@.len() && idx@[j] == s;
            assert(idx@[j] != s);
        }
    }
    None
}

/// The entry of the visible list selected after moving in direction `dir`.
pub fn nav_target(idx: &Vec<usize>, sel: Option<usize>, dir: Direction) -> (r: usize)
    requires
        idx.len() > 0,
    ensures
        0 <= pos_in(idx@, sel) < idx@.len(),
        0 <= nav_pos(pos_in(idx@, sel), idx@.len() as int, dir) < idx@.len(),
        r == idx@[nav_pos(pos_in(idx@, sel), idx@.len() as int, dir)],
{
    let cur: usize = match sel {
        Some(s) => match position_of(idx, s) {
            Some(p) => {
                proof {
                    idx@.index_of_first_ensures(s);
                }
                p
            },
            None => 0,
        },
        None => 0,
    };
    assert(cur as int == pos_in(idx@, sel));
    let n = idx.len();
    let np = match dir {
        Direction::Up => if cur > 0 {
            cur - 1
        } else {
            0
        },
        Direction::Down => if cur + 1 < n - 1 {
            cur + 1
        } else {
            n - 1
        },
        Direction::Top => 0,
        Direction::Bottom => n - 1,
    };
    idx[np]
}

/// Index of the first name passing the filter.
pub open spec fn first_match(names: Seq<Seq<char>>, q: Option<Seq<char>>) -> Option<usize> {
    if visible(names, q).len() > 0 {
        Some(visible(names, q)[0])
    } else {
        None
    }
}

// ── App ───────────────────────────────────────────────────────────────────────

/// The whole interface state.
pub struct App {
    pub active_tab: Tab,
    pub browser_focus: BrowserColumn,
    pub library: LibraryState,
    pub queue: QueueState,
    pub playback: PlaybackState,
    pub config: Config,
    pub should_quit: bool,
    pub search_mode: SearchMode,
    /// Active filter on the browser columns after a search confirm (lowercase);
    /// `None` shows every item.
    pub search_filter: Option<String>,
    /// Whether the terminal supports the Kitty graphics protocol.
    pub kitty_supported: bool,
    /// Cached cover art: `(cover_art_id, raw image bytes)`.
    pub art_cache: Option<(String, Vec<u8>)>,
    /// Whether the keybind reference popup is open.
    pub help_visible: bool,
    /// Whether the lyrics overlay is visible (NowPlaying tab only).
    pub lyrics_visible: bool,
    /// Whether the spectrum visualizer shares the queue column (NowPlaying tab only).
    pub visualizer_visible: bool,
    /// Cached lyrics `(song_id, lines)`; empty lines = the server has none.
    pub lyrics_cache: Option<(String, Vec<LyricLine>)>,
    /// Scroll offset for unsynced lyrics.
    pub lyrics_scroll: usize,
    /// True while a lyrics fetch is in flight.
    pub lyrics_loading: bool,
    /// Whether the accent colour follows the album art.
    pub dynamic_theme: bool,
    /// Counter sent with every play request so the engine can drop stale downloads.
    pub play_gen: u64,
}

/// The map after requesting an id: unchanged when present, else marked `Loading`.
pub open spec fn requested<V>(m: Map<Seq<char>, LoadingState<V>>, id: Seq<char>) -> Map<
    Seq<char>,
    LoadingState<V>,
> {
    if m.dom().contains(id) {
        m
    } else {
        m.insert(id, LoadingState::Loading)
    }
}

/// The fetch that a request issues: none when the id is already present.
pub open spec fn request_effects<V>(m: Map<Seq<char>, LoadingState<V>>, id: Seq<char>, e: Effect) -> Seq<
    Effect,
> {
    if m.dom().contains(id) {
        seq![]
    } else {
        seq![e]
    }
}

/// The index selected after navigating a filtered list, when the filtered list is not empty.
pub open spec fn nav_index(
    names: Seq<Seq<char>>,
    q: Option<Seq<char>>,
    sel: Option<usize>,
    dir: Direction,
) -> Option<usize> {
    let v = visible(names, q);
    if v.len() == 0 {
        None
    } else {
        Some(v[nav_pos(pos_in(v, sel), v.len() as int, dir)])
    }
}

/// The loaded albums of the highlighted artist.
pub open spec fn albums_of(lib: LibraryState) -> Option<Seq<Album>> {
    match lib.artist_spec() {
        Some(a) => if lib.albums.view().dom().contains(a.id@) {
            match lib.albums.view()[a.id@] {
                LoadingState::Loaded(v) => Some(v@),
                _ => None,
            }
        } else {
            None
        },
        None => None,
    }
}

/// The loaded songs of the highlighted album.
pub open spec fn songs_of(lib: LibraryState) -> Option<Seq<Song>> {
    match lib.album_spec() {
        Some(a) => if lib.tracks.view().dom().contains(a.id@) {
            match lib.tracks.view()[a.id@] {
                LoadingState::Loaded(v) => Some(v@),
                _ => None,
            }
        } else {
            None
        },
        None => None,
    }
}

/// `g + 1`, wrapping at `u64::MAX`.
pub open spec fn next_gen(g: u64) -> u64 {
    if g == u64::MAX {
        0
    } else {
        (g + 1) as u64
    }
}

/// The state after handing `song` to the player.
pub open spec fn after_play(a: App, song: Song) -> App {
    App {
        play_gen: next_gen(a.play_gen),
        playback: PlaybackState { current_song: Some(song), player_loaded: true, ..a.playback },
        ..a
    }
}

/// Handing the song under the cursor to the player; nothing when the cursor is off the queue.
pub open spec fn play_current_post(o: App, f: App, e: Seq<Effect>) -> bool {
    match o.queue.current_spec() {
        Some(song) => f == after_play(o, song) && e == seq![
            Effect::Play { song, gen: next_gen(o.play_gen) },
        ],
        None => f == o && e.len() == 0,
    }
}

/// Focusing the column to the left on the Browser tab clears the filter.
pub open spec fn focus_left_spec(o: App) -> App {
    if o.active_tab != Tab::Browser {
        o
    } else {
        App { search_filter: None, browser_focus: column_left(o.browser_focus), ..o }
    }
}

/// What focusing the next column does on the Browser tab (`e` = requested work).
pub open spec fn focus_right_post(o: App, f: App, e: Seq<Effect>) -> bool {

                &&& f.search_filter.is_none()
                &&& f.browser_focus == column_right(o.browser_focus)
                &&& match o.browser_focus {
                    BrowserColumn::Artists => match o.library.artist_spec() {
                        Some(a) => f.library.albums.view() == requested(
                            o.library.albums.view(),
                            a.id@,
                        ) && e == request_effects(
                            o.library.albums.view(),
                            a.id@,
                            Effect::FetchAlbums(a.id),
                        ) && f == (App {
                            library: LibraryState { albums: f.library.albums, ..o.library },
                            search_filter: None,
                            browser_focus: BrowserColumn::Albums,
                            ..o
                        }),
                        None => e.len() == 0 && f == (App {
                            search_filter: None,
                            browser_focus: BrowserColumn::Albums,
                            ..o
                        }),
                    },
                    BrowserColumn::Albums => match o.library.album_spec() {
                        Some(a) => f.library.tracks.view() == requested(
                            o.library.tracks.view(),
                            a.id@,
                        ) && e == request_effects(
                            o.library.tracks.view(),
                            a.id@,
                            Effect::FetchTracks(a.id),
                        ) && f == (App {
                            library: LibraryState { tracks: f.library.tracks, ..o.library },
                            search_filter: None,
                            browser_focus: BrowserColumn::Tracks,
                            ..o
                        }),
                        None => e.len() == 0 && f == (App {
                            search_filter: None,
                            browser_focus: BrowserColumn::Tracks,
                            ..o
                        }),
                    },
                    BrowserColumn::Tracks => e.len() == 0 && f == (App { search_filter: None, ..o }),
                }
            }

/// What moving the selection of the focused browser column does (`e` = requested work).
pub open spec fn navigate_browser_post(o: App, f: App, e: Seq<Effect>, dir: Direction) -> bool {

                match o.browser_focus {
                    BrowserColumn::Artists => match o.library.artists {
                        LoadingState::Loaded(a) => match nav_index(
                            artist_names(a@),
                            opt_view(o.search_filter),
                            o.library.selected_artist,
                            dir,
                        ) {
                            Some(ni) => ni < a@.len() && f.library.albums.view() == requested(
                                o.library.albums.view(),
                                a@[ni as int].id@,
                            ) && e == request_effects(
                                o.library.albums.view(),
                                a@[ni as int].id@,
                                Effect::FetchAlbums(a@[ni as int].id),
                            ) && f == (App {
                                library: LibraryState {
                                    selected_artist: Some(ni),
                                    selected_album: Some(0),
                                    selected_track: Some(0),
                                    albums: f.library.albums,
                                    ..o.library
                                },
                                ..o
                            }),
                            None => f == o && e.len() == 0,
                        },
                        _ => f == o && e.len() == 0,
                    },
                    BrowserColumn::Albums => match albums_of(o.library) {
                        Some(al) => match nav_index(
                            album_names(al),
                            opt_view(o.search_filter),
                            o.library.selected_album,
                            dir,
                        ) {
                            Some(ni) => ni < al.len() && f.library.tracks.view() == requested(
                                o.library.tracks.view(),
                                al[ni as int].id@,
                            ) && e == request_effects(
                                o.library.tracks.view(),
                                al[ni as int].id@,
                                Effect::FetchTracks(al[ni as int].id),
                            ) && f == (App {
                                library: LibraryState {
                                    selected_album: Some(ni),
                                    selected_track: Some(0),
                                    tracks: f.library.tracks,
                                    ..o.library
                                },
                                ..o
                            }),
                            None => f == o && e.len() == 0,
                        },
                        None => f == o && e.len() == 0,
                    },
                    BrowserColumn::Tracks => e.len() == 0 && match songs_of(o.library) {
                        Some(ss) => match nav_index(
                            song_titles(ss),
                            opt_view(o.search_filter),
                            o.library.selected_track,
                            dir,
                        ) {
                            Some(ni) => f == (App {
                                library: LibraryState { selected_track: Some(ni), ..o.library },
                                ..o
                            }),
                            None => f == o,
                        },
                        None => f == o,
                    },
                }
            }

/// The queue after moving its cursor in direction `dir` (and scrolling to it).
pub open spec fn navigate_queue_spec(o: App, dir: Direction) -> App {
    if o.queue.songs@.len() == 0 {
        o
    } else {
        let c = nav_pos(o.queue.cursor as int, o.queue.songs@.len() as int, dir) as usize;
        App { queue: QueueState { cursor: c, scroll: c, ..o.queue }, ..o }
    }
}

/// What a navigation key does outside the lyrics pane: browser columns or queue.
pub open spec fn navigate_post(o: App, f: App, e: Seq<Effect>, dir: Direction) -> bool {
    match o.active_tab {
        Tab::Browser => navigate_browser_post(o, f, e, dir),
        Tab::NowPlaying => f == navigate_queue_spec(o, dir) && e.len() == 0,
    }
}

/// Adding the highlighted track to the queue; playback starts when the queue was empty.
pub open spec fn add_to_queue_post(o: App, f: App, e: Seq<Effect>) -> bool {
    match o.library.track_spec() {
        None => f == o && e.len() == 0,
        Some(s) => {
            &&& f.queue.songs@ == o.queue.songs@.push(s)
            &&& f.queue.pre_shuffle_order is Some
            &&& add_order(f.queue) == add_order(o.queue).push(s)
            &&& if o.queue.songs@.len() == 0 {
                &&& f == after_play(
                    App {
                        queue: QueueState {
                            songs: f.queue.songs,
                            cursor: 0,
                            pre_shuffle_order: f.queue.pre_shuffle_order,
                            ..o.queue
                        },
                        ..o
                    },
                    s,
                )
                &&& e == seq![Effect::Play { song: s, gen: next_gen(o.play_gen) }]
            } else {
                &&& f == (App {
                    queue: QueueState {
                        songs: f.queue.songs,
                        pre_shuffle_order: f.queue.pre_shuffle_order,
                        ..o.queue
                    },
                    ..o
                })
                &&& e.len() == 0
            }
        },
    }
}

/// Adding everything under the focused column: a whole-artist fetch from the Artists and
/// Albums columns, the loaded album's tracks in `(disc, track)` order from the Tracks column.
pub open spec fn add_all_post(o: App, f: App, e: Seq<Effect>) -> bool {
    match o.browser_focus {
        BrowserColumn::Tracks => match songs_of(o.library) {
            None => f == o && e.len() == 0,
            Some(ss) => appended_post(o, f, e, ss, false, true),
        },
        _ => f == o && match o.library.artist_spec() {
            Some(a) => e == seq![
                Effect::FetchAllTracksForArtist {
                    artist_id: a.id,
                    start_playing: o.queue.songs@.len() == 0,
                },
            ],
            None => e.len() == 0,
        },
    }
}

/// `ss`, sorted by (album when `by_album`,) disc and track, songs with equal keys keeping
/// their order in `ss`, appended to the queue; when `play_if_empty` and the queue was
/// empty, playback starts at the first new song.
pub open spec fn appended_post(
    o: App,
    f: App,
    e: Seq<Effect>,
    ss: Seq<Song>,
    by_album: bool,
    play_if_empty: bool,
) -> bool {
    let added = f.queue.songs@.skip(o.queue.songs@.len() as int);
    &&& f.queue.songs@.len() == o.queue.songs@.len() + ss.len()
    &&& f.queue.songs@.take(o.queue.songs@.len() as int) == o.queue.songs@
    &&& crate::sort::sorted_by_key(added, by_album)
    &&& added.to_multiset() == ss.to_multiset()
    &&& crate::sort::keeps_ties_in_order(added, ss, by_album)
    &&& add_order(f.queue) == add_order(o.queue) + added
    &&& if play_if_empty && o.queue.songs@.len() == 0 && ss.len() > 0 {
        &&& f == after_play(
            App {
                queue: QueueState {
                    songs: f.queue.songs,
                    cursor: 0,
                    pre_shuffle_order: f.queue.pre_shuffle_order,
                    ..o.queue
                },
                ..o
            },
            f.queue.songs@[0],
        )
        &&& e == seq![Effect::Play { song: f.queue.songs@[0], gen: next_gen(o.play_gen) }]
    } else {
        &&& f == (App {
            queue: QueueState {
                songs: f.queue.songs,
                pre_shuffle_order: f.queue.pre_shuffle_order,
                ..o.queue
            },
            ..o
        })
        &&& e.len() == 0
    }
}

/// Enter: expand the Artists/Albums column, add the highlighted track from Tracks.
pub open spec fn select_post(o: App, f: App, e: Seq<Effect>) -> bool {
    match o.active_tab {
        Tab::Browser => match o.browser_focus {
            BrowserColumn::Tracks => add_to_queue_post(o, f, e),
            _ => focus_right_post(o, f, e),
        },
        Tab::NowPlaying => f == o && e.len() == 0,
    }
}

/// Ids of songs.
pub open spec fn song_ids(v: Seq<Song>) -> Seq<Seq<char>> {
    Seq::new(v.len(), |i: int| v[i].id@)
}

/// Clearing the queue: empty queue, playback stopped.
pub open spec fn clear_queue_post(o: App, f: App, e: Seq<Effect>) -> bool {
    &&& f.queue.songs@.len() == 0
    &&& f == (App {
        queue: QueueState {
            songs: f.queue.songs,
            cursor: 0,
            scroll: 0,
            pre_shuffle_order: None,
        },
        playback: PlaybackState {
            current_song: None,
            elapsed_ms: 0,
            paused: false,
            player_loaded: false,
            ..o.playback
        },
        ..o
    })
    &&& e == seq![Effect::Player(PlayerCommand::Stop)]
}

/// Restoring the pre-shuffle order, keeping the cursor on the same song id when present.
pub open spec fn unshuffle_post(o: App, f: App) -> bool {
    match o.queue.pre_shuffle_order {
        None => f == o,
        Some(orig) => {
            &&& f.queue.songs@ == orig@
            &&& match o.queue.current_spec() {
                Some(cur) => match song_ids(orig@).index_of_first(cur.id@) {
                    Some(k) => f == (App {
                        queue: QueueState {
                            songs: f.queue.songs,
                            cursor: k as usize,
                            scroll: k as usize,
                            ..o.queue
                        },
                        ..o
                    }),
                    None => f == (App { queue: QueueState { songs: f.queue.songs, ..o.queue }, ..o }),
                },
                None => f == (App { queue: QueueState { songs: f.queue.songs, ..o.queue }, ..o }),
            }
        },
    }
}

/// Shuffling leaves the recorded add order alone, however often it is repeated.
pub proof fn law_shuffle_keeps_add_order(o: App, f: App)
    requires
        o.queue.pre_shuffle_order is Some,
        shuffle_post(o, f),
    ensures
        f.queue.pre_shuffle_order is Some,
        add_order(f.queue) == add_order(o.queue),
{
}

/// Unshuffling puts the songs back in the order they were added in.
pub proof fn law_unshuffle_restores_add_order(f: App, g: App)
    requires
        f.queue.pre_shuffle_order is Some,
        unshuffle_post(f, g),
    ensures
        g.queue.songs@ == add_order(f.queue),
        add_order(g.queue) == add_order(f.queue),
{
}

/// Shuffling: a permutation of the queue, the playing song first when one is playing,
/// cursor and scroll reset; queues shorter than two are left alone.
pub open spec fn shuffle_post(o: App, f: App) -> bool {
    if o.queue.songs@.len() < 2 {
        f == o
    } else {
        &&& f.queue.songs@.to_multiset() == o.queue.songs@.to_multiset()
        &&& f.queue.songs@.len() == o.queue.songs@.len()
        &&& (o.playback.current_song.is_some() && o.queue.cursor < o.queue.songs@.len())
            ==> f.queue.songs@[0] == o.queue.songs@[o.queue.cursor as int]
        &&& f == (App {
            queue: QueueState { songs: f.queue.songs, cursor: 0, scroll: 0, ..o.queue },
            ..o
        })
    }
}

/// The order that a shuffle seeded with `seed` gives the queue: with a song playing, that
/// song is moved to the front and the rest is shuffled; otherwise the whole queue is.
pub open spec fn shuffled_queue(o: App, seed: u64) -> Seq<Song> {
    let s = o.queue.songs@;
    if o.playback.current_song.is_some() && o.queue.cursor < s.len() {
        fisher_yates(swapped(s, 0, o.queue.cursor as int), s.len() - 1, lcg_step(seed), 1)
    } else {
        fisher_yates(s, s.len() - 1, lcg_step(seed), 0)
    }
}

/// Search confirm: move the focused column's (or the queue's) selection to the first
/// entry whose lowercase name contains the lowercase query.
pub open spec fn search_confirm_post(o: App, f: App) -> bool {
    let q = lowercase(o.search_mode.query@);
    if q.len() == 0 {
        f == o
    } else {
        match o.active_tab {
            Tab::Browser => match o.browser_focus {
                BrowserColumn::Artists => match o.library.artists {
                    LoadingState::Loaded(a) => match first_match(artist_names(a@), Some(q)) {
                        Some(k) => f == (App {
                            library: LibraryState { selected_artist: Some(k), ..o.library },
                            ..o
                        }),
                        None => f == o,
                    },
                    _ => f == o,
                },
                BrowserColumn::Albums => match albums_of(o.library) {
                    Some(al) => match first_match(album_names(al), Some(q)) {
                        Some(k) => f == (App {
                            library: LibraryState { selected_album: Some(k), ..o.library },
                            ..o
                        }),
                        None => f == o,
                    },
                    None => f == o,
                },
                BrowserColumn::Tracks => match songs_of(o.library) {
                    Some(ss) => match first_match(song_titles(ss), Some(q)) {
                        Some(k) => f == (App {
                            library: LibraryState { selected_track: Some(k), ..o.library },
                            ..o
                        }),
                        None => f == o,
                    },
                    None => f == o,
                },
            },
            Tab::NowPlaying => match first_match(song_titles(o.queue.songs@), Some(q)) {
                Some(k) => f == (App {
                    queue: QueueState { cursor: k, scroll: k, ..o.queue },
                    ..o
                }),
                None => f == o,
            },
        }
    }
}

// ── Library updates ──────────────────────────────────────────────────────────

/// A saved selection (0 when none) clamped into a non-empty list of `n` items.
pub open spec fn clamp_sel(sel: Option<usize>, n: int) -> usize {
    let s: int = match sel {
        Some(i) => i as int,
        None => 0,
    };
    if s < n - 1 {
        s as usize
    } else {
        (n - 1) as usize
    }
}

/// The artist list arrived (or failed): store it, clamp the selection, request the
/// albums of the selected artist.
pub open spec fn artists_update_post(
    o: App,
    f: App,
    e: Seq<Effect>,
    result: Result<Vec<Artist>, String>,
) -> bool {
    match result {
        Err(msg) => e.len() == 0 && f == (App {
            library: LibraryState { artists: LoadingState::Error(msg), ..o.library },
            ..o
        }),
        Ok(list) => if list@.len() == 0 {
            e.len() == 0 && f == (App {
                library: LibraryState { artists: LoadingState::Loaded(list), ..o.library },
                ..o
            })
        } else {
            let k = clamp_sel(o.library.selected_artist, list@.len() as int);
            let id = list@[k as int].id;
            &&& f == (App {
                library: LibraryState {
                    artists: LoadingState::Loaded(list),
                    selected_artist: Some(k),
                    albums: f.library.albums,
                    ..o.library
                },
                ..o
            })
            &&& f.library.albums.view() == requested(o.library.albums.view(), id@)
            &&& e == request_effects(o.library.albums.view(), id@, Effect::FetchAlbums(id))
        },
    }
}

/// Whether `id` is the id of the highlighted artist.
pub open spec fn is_selected_artist(lib: LibraryState, id: Seq<char>) -> bool {
    match lib.artist_spec() {
        Some(a) => a.id@ == id,
        None => false,
    }
}

/// Whether `id` is the id of the highlighted album.
pub open spec fn is_selected_album(lib: LibraryState, id: Seq<char>) -> bool {
    match lib.album_spec() {
        Some(a) => a.id@ == id,
        None => false,
    }
}

/// The albums of an artist arrived (or failed): store them; when non-empty, settle the
/// album selection and request the tracks of the album it points at (the selected one
/// for the highlighted artist, else the first).
pub open spec fn albums_update_post(
    o: App,
    f: App,
    e: Seq<Effect>,
    artist_id: String,
    result: Result<Vec<Album>, String>,
) -> bool {
    match result {
        Err(msg) => {
            &&& e.len() == 0
            &&& f == (App { library: LibraryState { albums: f.library.albums, ..o.library }, ..o })
            &&& f.library.albums.view() == o.library.albums.view().insert(
                artist_id@,
                LoadingState::Error(msg),
            )
        },
        Ok(list) => {
            &&& f.library.albums.view() == o.library.albums.view().insert(
                artist_id@,
                LoadingState::Loaded(list),
            )
            &&& if list@.len() == 0 {
                &&& e.len() == 0
                &&& f == (App {
                    library: LibraryState { albums: f.library.albums, ..o.library },
                    ..o
                })
            } else {
                let sel = if is_selected_artist(o.library, artist_id@) {
                    Some(clamp_sel(o.library.selected_album, list@.len() as int))
                } else if o.library.selected_album.is_none() {
                    Some(0usize)
                } else {
                    o.library.selected_album
                };
                let tid = if is_selected_artist(o.library, artist_id@) {
                    list@[sel.unwrap() as int].id
                } else {
                    list@[0].id
                };
                &&& f == (App {
                    library: LibraryState {
                        albums: f.library.albums,
                        tracks: f.library.tracks,
                        selected_album: sel,
                        ..o.library
                    },
                    ..o
                })
                &&& f.library.tracks.view() == requested(o.library.tracks.view(), tid@)
                &&& e == request_effects(o.library.tracks.view(), tid@, Effect::FetchTracks(tid))
            }
        },
    }
}

/// The tracks of an album arrived (or failed): store them and settle the track selection.
pub open spec fn tracks_update_post(
    o: App,
    f: App,
    e: Seq<Effect>,
    album_id: String,
    result: Result<Vec<Song>, String>,
) -> bool {
    &&& e.len() == 0
    &&& match result {
        Err(msg) => {
            &&& f == (App { library: LibraryState { tracks: f.library.tracks, ..o.library }, ..o })
            &&& f.library.tracks.view() == o.library.tracks.view().insert(
                album_id@,
                LoadingState::Error(msg),
            )
        },
        Ok(list) => {
            let sel = if is_selected_album(o.library, album_id@) && list@.len() > 0 {
                Some(clamp_sel(o.library.selected_track, list@.len() as int))
            } else if o.library.selected_track.is_none() {
                Some(0usize)
            } else {
                o.library.selected_track
            };
            &&& f == (App {
                library: LibraryState {
                    tracks: f.library.tracks,
                    selected_track: sel,
                    ..o.library
                },
                ..o
            })
            &&& f.library.tracks.view() == o.library.tracks.view().insert(
                album_id@,
                LoadingState::Loaded(list),
            )
        },
    }
}

/// What one library update does to the state, and the work it requests.
pub open spec fn library_update_post(o: App, f: App, e: Seq<Effect>, u: LibraryUpdate) -> bool {
    match u {
        LibraryUpdate::Artists(result) => artists_update_post(o, f, e, result),
        LibraryUpdate::Albums { artist_id, result } => albums_update_post(
            o,
            f,
            e,
            artist_id,
            result,
        ),
        LibraryUpdate::Tracks { album_id, result } => tracks_update_post(
            o,
            f,
            e,
            album_id,
            result,
        ),
        LibraryUpdate::AllTracksForArtist { songs, start_playing } => appended_post(
            o,
            f,
            e,
            songs@,
            true,
            start_playing,
        ),
        LibraryUpdate::CoverArt { cover_id, bytes } => f == (App {
            art_cache: Some((cover_id, bytes)),
            ..o
        }) && e == seq![Effect::AccentFromArt],
        LibraryUpdate::Lyrics { song_id, lines } => f == (App {
            lyrics_loading: false,
            lyrics_cache: Some((song_id, lines)),
            lyrics_scroll: 0,
            ..o
        }) && e.len() == 0,
        LibraryUpdate::CacheTrack { song_id, album_id, bytes } => f == o && e == seq![
            Effect::CachePut { song_id, album_id, bytes },
        ],
    }
}

// ── Player events ────────────────────────────────────────────────────────────

/// The cached cover art is the one with id `id`.
pub open spec fn art_cached_for(a: App, id: Seq<char>) -> bool {
    match a.art_cache {
        Some((cid, _)) => cid@ == id,
        None => false,
    }
}

/// Cover art work for a song that starts: reuse the cached art, or clear the accent and
/// fetch the art, or just clear the accent when the song has none.
pub open spec fn cover_effects(o: App, song: Song) -> Seq<Effect> {
    match song.cover_art {
        Some(cid) => if art_cached_for(o, cid@) {
            seq![Effect::AccentFromArt]
        } else {
            seq![Effect::AccentClear, Effect::FetchCoverArt(cid)]
        },
        None => seq![Effect::AccentClear],
    }
}

/// `e` asks for `s` to be stored in the offline cache (no album id sent as empty text).
pub open spec fn is_cache_download(e: Effect, s: Song) -> bool {
    match e {
        Effect::CacheDownload { song_id, album_id } => song_id@ == s.id@ && album_id@
            == opt_or_empty(s.album_id),
        _ => false,
    }
}

/// The songs to store in the offline cache when `song` (under the cursor) starts: it and
/// the next two of the queue, when caching is on.
pub open spec fn prefetch_songs(o: App, song: Song) -> Seq<Song> {
    let c = o.queue.cursor as int;
    let q = o.queue.songs@;
    if !o.config.cache_enabled {
        Seq::empty()
    } else if c + 2 < q.len() {
        seq![song, q[c + 1], q[c + 2]]
    } else if c + 1 < q.len() {
        seq![song, q[c + 1]]
    } else {
        seq![song]
    }
}

/// `d` asks, in order, for each song of `s` to be stored in the offline cache.
pub open spec fn downloads_match(d: Seq<Effect>, s: Seq<Song>) -> bool {
    &&& d.len() == s.len()
    &&& forall|i: int| 0 <= i < s.len() ==> is_cache_download(#[trigger] d[i], s[i])
}

/// A song starts playing: cover art work, then a lyrics request unless cached, then the
/// cache downloads; the song becomes the current one.
pub open spec fn started_post(o: App, f: App, e: Seq<Effect>, song: Song, downloads: Seq<Song>) -> bool {
    let c = cover_effects(o, song);
    let fetch = !lyrics_cached_for(o, song.id@);
    let nl: int = if fetch {
        1
    } else {
        0
    };
    let o1 = if fetch {
        lyrics_requested(o)
    } else {
        o
    };
    &&& f == (App { playback: PlaybackState { current_song: Some(song), ..o1.playback }, ..o1 })
    &&& e.len() == c.len() + nl + downloads.len()
    &&& e.take(c.len() as int) == c
    &&& fetch ==> is_lyrics_fetch(e[c.len() as int], song)
    &&& downloads_match(e.skip(c.len() + nl), downloads)
}

/// Milliseconds of a duration in whole seconds.
pub open spec fn duration_ms(d: Option<u32>) -> Option<u64> {
    match d {
        Some(s) => Some((s * 1000) as u64),
        None => None,
    }
}

/// What one event of the audio engine does to the state, and the work it requests.
pub open spec fn player_event_post(o: App, f: App, e: Seq<Effect>, ev: PlayerEvent) -> bool {
    let q = o.queue.songs@;
    let c = o.queue.cursor as int;
    match ev {
        PlayerEvent::TrackStarted => {
            let o1 = App { playback: PlaybackState { paused: false, ..o.playback }, ..o };
            match o.queue.current_spec() {
                Some(song) => started_post(o1, f, e, song, prefetch_songs(o, song)),
                None => f == o1 && e.len() == 0,
            }
        },
        PlayerEvent::Progress { elapsed_ms, total_ms } => e.len() == 0 && f == (App {
            playback: PlaybackState {
                elapsed_ms,
                total_ms: if total_ms is Some {
                    total_ms
                } else {
                    o.playback.total_ms
                },
                ..o.playback
            },
            ..o
        }),
        PlayerEvent::AboutToFinish => f == o && if c + 1 < q.len() {
            e == seq![
                Effect::EnqueueNext {
                    song_id: q[c + 1].id,
                    duration_ms: duration_ms(q[c + 1].duration),
                },
            ]
        } else {
            e.len() == 0
        },
        PlayerEvent::TrackAdvanced => {
            let o1 = App {
                queue: QueueState {
                    cursor: if c + 1 < q.len() {
                        (c + 1) as usize
                    } else {
                        o.queue.cursor
                    },
                    ..o.queue
                },
                playback: PlaybackState { paused: false, elapsed_ms: 0, ..o.playback },
                ..o
            };
            match o1.queue.current_spec() {
                Some(song) => started_post(o1, f, e, song, Seq::empty()),
                None => f == o1 && e.len() == 0,
            }
        },
        PlayerEvent::TrackEnded => if c + 1 < q.len() {
            play_at_post(o, f, e, (c + 1) as usize)
        } else {
            e.len() == 0 && f == (App {
                playback: PlaybackState { current_song: None, elapsed_ms: 0, ..o.playback },
                ..o
            })
        },
        PlayerEvent::Error(msg) => f == o && e == seq![Effect::ReportError(msg)],
    }
}

// ── Mouse ────────────────────────────────────────────────────────────────────

/// Clicking artist row `idx` (an index into the whole list): select it and request its
/// albums.
pub open spec fn click_artist_post(o: App, f: App, e: Seq<Effect>, idx: usize) -> bool {
    match o.library.artists {
        LoadingState::Loaded(a) => if idx < a@.len() {
            &&& f.library.albums.view() == requested(o.library.albums.view(), a@[idx as int].id@)
            &&& e == request_effects(
                o.library.albums.view(),
                a@[idx as int].id@,
                Effect::FetchAlbums(a@[idx as int].id),
            )
            &&& f == (App {
                library: LibraryState {
                    selected_artist: Some(idx),
                    selected_album: Some(0),
                    selected_track: Some(0),
                    albums: f.library.albums,
                    ..o.library
                },
                ..o
            })
        } else {
            f == o && e.len() == 0
        },
        _ => f == o && e.len() == 0,
    }
}

/// Clicking album row `idx`: select it and request its tracks.
pub open spec fn click_album_post(o: App, f: App, e: Seq<Effect>, idx: usize) -> bool {
    match albums_of(o.library) {
        Some(al) => if idx < al.len() {
            &&& f.library.tracks.view() == requested(o.library.tracks.view(), al[idx as int].id@)
            &&& e == request_effects(
                o.library.tracks.view(),
                al[idx as int].id@,
                Effect::FetchTracks(al[idx as int].id),
            )
            &&& f == (App {
                library: LibraryState {
                    selected_album: Some(idx),
                    selected_track: Some(0),
                    tracks: f.library.tracks,
                    ..o.library
                },
                ..o
            })
        } else {
            f == o && e.len() == 0
        },
        None => f == o && e.len() == 0,
    }
}

/// Clicking track row `idx`: select it when in range.
pub open spec fn click_track_spec(o: App, idx: usize) -> App {
    match songs_of(o.library) {
        Some(ss) => if idx < ss.len() {
            App { library: LibraryState { selected_track: Some(idx), ..o.library }, ..o }
        } else {
            o
        },
        None => o,
    }
}

/// Clicking queue entry `idx`: cursor and scroll move there when in range.
pub open spec fn queue_cursor_spec(o: App, idx: usize) -> App {
    if idx < o.queue.songs@.len() {
        App { queue: QueueState { cursor: idx, scroll: idx, ..o.queue }, ..o }
    } else {
        o
    }
}

/// Where a left click landed.
pub enum ClickTarget {
    Nothing,
    /// One of the transport controls of the now-playing bar.
    Control(Action),
    /// The progress bar, `offset` cells into a bar `width` cells wide, for a track of
    /// `total_secs` seconds.
    Seek { offset: u32, width: u32, total_secs: u64 },
    /// Row `row` (from the top of the list) of a browser column showing `height` rows.
    BrowserRow { column: BrowserColumn, row: usize, height: usize },
    /// Row `row` of the queue list.
    QueueRow(usize),
}

/// `a - b`, or 0 when `b > a`.
pub open spec fn sat_sub(a: int, b: int) -> int {
    if a >= b {
        a - b
    } else {
        0
    }
}

/// The control under column `rel` of a controls area `w` cells wide: previous, play/pause,
/// next, each a third of the width.
pub open spec fn control_at(rel: int, w: int) -> Action {
    if rel < w / 3 {
        Action::PrevTrack
    } else if rel < 2 * (w / 3) {
        Action::PlayPause
    } else {
        Action::NextTrack
    }
}

/// A click on the progress bar: the bar runs between the elapsed and total labels.
pub open spec fn seek_target(a: App, x: u16, prog: Rect) -> ClickTarget {
    match a.playback.total_ms {
        Some(t) => {
            let ts = t / 1000;
            let bs = prog.x + clock_label((a.playback.elapsed_ms / 1000) as nat).len() + 2;
            let be = sat_sub(prog.x + prog.width, (clock_label(ts as nat).len() + 2) as int);
            if x >= bs && be > bs {
                ClickTarget::Seek { offset: (x - bs) as u32, width: (be - bs) as u32, total_secs: ts }
            } else {
                ClickTarget::Nothing
            }
        },
        None => ClickTarget::Nothing,
    }
}

/// The browser column and list row under a click inside the content area.
pub open spec fn browser_target(x: u16, y: u16, center: Rect) -> ClickTarget {
    let bc = split_spec(center, browser_columns(), false);
    let ci: int = if x < bc[1].x {
        0
    } else if x < bc[2].x {
        1
    } else {
        2
    };
    let col = bc[ci];
    if y <= col.y || y >= col.y + col.height - 1 {
        ClickTarget::Nothing
    } else {
        ClickTarget::BrowserRow {
            column: if ci == 0 {
                BrowserColumn::Artists
            } else if ci == 1 {
                BrowserColumn::Albums
            } else {
                BrowserColumn::Tracks
            },
            row: (y - col.y - 1) as usize,
            height: sat_sub(col.height as int, 2) as usize,
        }
    }
}

/// The queue row under a click inside the NowPlaying content area.
pub open spec fn queue_target(x: u16, y: u16, center: Rect) -> ClickTarget {
    let q = split_spec(center, halves(), false)[1];
    if x < q.x || x >= q.x + q.width || y <= q.y || y >= q.y + q.height - 1 {
        ClickTarget::Nothing
    } else {
        ClickTarget::QueueRow((y - q.y - 1) as usize)
    }
}

/// What lies under a left click at `(x, y)` on a screen of size `area`.
pub open spec fn click_target(a: App, x: u16, y: u16, area: Rect) -> ClickTarget {
    let l = layout_spec(area);
    let np = l.now_playing;
    let cols = split_spec(np, bar_columns(), false);
    let ctl = cols[1];
    let prog = cols[2];
    if y == np.y + 1 && ctl.x <= x < ctl.x + ctl.width {
        ClickTarget::Control(control_at(x - ctl.x, ctl.width as int))
    } else if y == np.y + 2 && prog.x <= x < prog.x + prog.width
        && a.playback.current_song.is_some() {
        seek_target(a, x, prog)
    } else if y < l.center.y || y >= l.center.y + l.center.height {
        ClickTarget::Nothing
    } else {
        match a.active_tab {
            Tab::Browser => browser_target(x, y, l.center),
            Tab::NowPlaying => queue_target(x, y, l.center),
        }
    }
}

/// The entry of `v` shown at list row `row`, with the list scrolled just far enough to
/// show the selected entry within `height` rows.
pub open spec fn row_pick(v: Seq<usize>, sel: Option<usize>, row: int, height: int) -> Option<
    usize,
> {
    let scroll = sat_sub(pos_in(v, sel), sat_sub(height, 1));
    if scroll + row < v.len() {
        Some(v[scroll + row])
    } else {
        None
    }
}

/// What a click outside the progress bar does: the control's action, or a browser or
/// queue row selection (the clicked browser column also takes the focus).
pub enum MouseOutcome {
    /// The click was handled; this is the work it requests.
    Done(Vec<Effect>),
    /// The progress bar was clicked: seek to `offset / width` of `total_secs`.
    Seek { offset: u32, width: u32, total_secs: u64 },
}

/// The effect of a browser row click after the focus moved to `column`.
pub open spec fn browser_click_post(
    o: App,
    f: App,
    e: Seq<Effect>,
    column: BrowserColumn,
    row: usize,
    height: usize,
) -> bool {
    let o1 = App { browser_focus: column, ..o };
    let q = opt_view(o.search_filter);
    match column {
        BrowserColumn::Artists => match o.library.artists {
            LoadingState::Loaded(a) => match row_pick(
                visible(artist_names(a@), q),
                o.library.selected_artist,
                row as int,
                height as int,
            ) {
                Some(k) => click_artist_post(o1, f, e, k),
                None => f == o1 && e.len() == 0,
            },
            _ => f == o1 && e.len() == 0,
        },
        BrowserColumn::Albums => match albums_of(o.library) {
            Some(al) => match row_pick(
                visible(album_names(al), q),
                o.library.selected_album,
                row as int,
                height as int,
            ) {
                Some(k) => click_album_post(o1, f, e, k),
                None => f == o1 && e.len() == 0,
            },
            None => f == o1 && e.len() == 0,
        },
        BrowserColumn::Tracks => e.len() == 0 && match songs_of(o.library) {
            Some(ss) => match row_pick(
                visible(song_titles(ss), q),
                o.library.selected_track,
                row as int,
                height as int,
            ) {
                Some(k) => f == click_track_spec(o1, k),
                None => f == o1,
            },
            None => f == o1,
        },
    }
}

/// What a left click does, given what lies under it.
pub open spec fn mouse_post(o: App, f: App, out: MouseOutcome, t: ClickTarget) -> bool {
    match t {
        ClickTarget::Nothing => f == o && (out matches MouseOutcome::Done(e) && e@.len() == 0),
        ClickTarget::Control(act) => match out {
            MouseOutcome::Done(e) => dispatch_post(o, f, e@, act),
            _ => false,
        },
        ClickTarget::Seek { offset, width, total_secs } => f == o && out == (MouseOutcome::Seek {
            offset,
            width,
            total_secs,
        }),
        ClickTarget::BrowserRow { column, row, height } => match out {
            MouseOutcome::Done(e) => browser_click_post(o, f, e@, column, row, height),
            _ => false,
        },
        ClickTarget::QueueRow(row) => (out matches MouseOutcome::Done(e) && e@.len() == 0) && f == (
        if o.queue.scroll + row <= usize::MAX {
            queue_cursor_spec(o, (o.queue.scroll + row) as usize)
        } else {
            o
        }),
    }
}

// ── Dispatch ──────────────────────────────────────────────────────────────────

/// The characters of an optional string, empty when absent.
pub open spec fn opt_or_empty(o: Option<String>) -> Seq<char> {
    match o {
        Some(s) => s@,
        None => Seq::empty(),
    }
}

/// `e` asks for the lyrics of `song` (missing artist or album sent as empty text).
pub open spec fn is_lyrics_fetch(e: Effect, song: Song) -> bool {
    match e {
        Effect::FetchLyrics { song_id, artist, title, album } => {
            &&& song_id@ == song.id@
            &&& artist@ == opt_or_empty(song.artist)
            &&& title@ == song.title@
            &&& album@ == opt_or_empty(song.album)
        },
        _ => false,
    }
}

/// The lyrics cache holds the lyrics of the song with id `id`.
pub open spec fn lyrics_cached_for(a: App, id: Seq<char>) -> bool {
    match a.lyrics_cache {
        Some((cid, _)) => cid@ == id,
        None => false,
    }
}

/// The state while a lyrics request is in flight: spinner on, scroll back at the top.
pub open spec fn lyrics_requested(a: App) -> App {
    App { lyrics_loading: true, lyrics_scroll: 0, ..a }
}

/// `a + b`, saturating at `u64::MAX`.
pub open spec fn sat_add_u64(a: u64, b: u64) -> u64 {
    if a + b > u64::MAX {
        u64::MAX
    } else {
        (a + b) as u64
    }
}

/// A seek target, never past the known end of the track.
pub open spec fn seek_clamp(pos: u64, total: Option<u64>) -> u64 {
    match total {
        Some(t) => if pos < t {
            pos
        } else {
            t
        },
        None => pos,
    }
}

/// Seeking to `pos`: the player is told and the elapsed time jumps there.
pub open spec fn seek_post(o: App, f: App, e: Seq<Effect>, pos: u64) -> bool {
    &&& f == (App { playback: PlaybackState { elapsed_ms: pos, ..o.playback }, ..o })
    &&& e == seq![Effect::Player(PlayerCommand::Seek(pos))]
}

/// Setting the volume to `v` percent: stored in the configuration and sent to the player.
pub open spec fn volume_post(o: App, f: App, e: Seq<Effect>, v: u8) -> bool {
    &&& f == (App { config: Config { default_volume: v, ..o.config }, ..o })
    &&& e == seq![Effect::Player(PlayerCommand::SetVolume(v))]
}

/// Volume after "louder": five points more, at most 100.
pub open spec fn volume_up(v: u8) -> u8 {
    if v + 5 > 100 {
        100
    } else {
        (v + 5) as u8
    }
}

/// Volume after "quieter": five points less, at least 0.
pub open spec fn volume_down(v: u8) -> u8 {
    if v < 5 {
        0
    } else {
        (v - 5) as u8
    }
}

/// Moving the queue cursor to `c` and playing from there.
pub open spec fn play_at_post(o: App, f: App, e: Seq<Effect>, c: usize) -> bool {
    play_current_post(App { queue: QueueState { cursor: c, ..o.queue }, ..o }, f, e)
}

/// Play/pause: a restored queue is started; otherwise pause and resume alternate.
pub open spec fn play_pause_post(o: App, f: App, e: Seq<Effect>) -> bool {
    if !o.playback.player_loaded && o.queue.current_spec().is_some() {
        play_current_post(o, f, e)
    } else if o.playback.paused {
        &&& f == (App { playback: PlaybackState { paused: false, ..o.playback }, ..o })
        &&& e == seq![Effect::Player(PlayerCommand::Resume)]
    } else {
        &&& f == (App { playback: PlaybackState { paused: true, ..o.playback }, ..o })
        &&& e == seq![Effect::Player(PlayerCommand::Pause)]
    }
}

/// Scrolling unsynced lyrics by one line (up/top scroll up, down/bottom scroll down).
pub open spec fn lyrics_scroll_spec(o: App, dir: Direction) -> App {
    let s = o.lyrics_scroll;
    match dir {
        Direction::Up | Direction::Top => App {
            lyrics_scroll: if s == 0 {
                0
            } else {
                (s - 1) as usize
            },
            ..o
        },
        Direction::Down | Direction::Bottom => App {
            lyrics_scroll: if s == usize::MAX {
                s
            } else {
                (s + 1) as usize
            },
            ..o
        },
    }
}

/// The search prompt after `f`: closed or open as `active`, its text `query`, selection `sel`.
pub open spec fn prompt_is(f: App, active: bool, query: Seq<char>, sel: usize) -> bool {
    f.search_mode.active == active && f.search_mode.query@ == query && f.search_mode.selected == sel
}

/// Confirming a search: the lowercase query becomes the filter (none when empty), the
/// focused list jumps to its first match, and the prompt closes with an empty text.
pub open spec fn search_commit_post(o: App, f: App) -> bool {
    let q = lowercase(o.search_mode.query@);
    &&& opt_view(f.search_filter) == (if q.len() == 0 {
        None::<Seq<char>>
    } else {
        Some(q)
    })
    &&& prompt_is(f, false, Seq::empty(), o.search_mode.selected)
    &&& search_confirm_post(
        App { search_filter: f.search_filter, ..o },
        App { search_mode: o.search_mode, ..f },
    )
}

/// Toggling the lyrics overlay (NowPlaying tab only); showing it requests the lyrics of
/// the playing song when they are not cached.
pub open spec fn toggle_lyrics_post(o: App, f: App, e: Seq<Effect>) -> bool {
    if o.active_tab != Tab::NowPlaying {
        f == o && e.len() == 0
    } else {
        let o1 = App { lyrics_visible: !o.lyrics_visible, ..o };
        match o.playback.current_song {
            Some(song) => if o1.lyrics_visible && !lyrics_cached_for(o, song.id@) {
                f == lyrics_requested(o1) && e.len() == 1 && is_lyrics_fetch(e[0], song)
            } else {
                f == o1 && e.len() == 0
            },
            None => f == o1 && e.len() == 0,
        }
    }
}

/// Showing tab `t` clears the filter.
pub open spec fn show_tab(o: App, t: Tab) -> App {
    App { active_tab: t, search_filter: None, ..o }
}

/// Actions that change what is shown.
pub open spec fn is_view_action(a: Action) -> bool {
    a is ToggleHelp || a is Quit || a is SwitchTab || a is SwitchTabReverse || a is GoToBrowser
        || a is GoToNowPlaying || a is FocusLeft || a is Back || a is FocusRight || a is Navigate
        || a is Select || a is ToggleLyrics || a is ToggleDynamicTheme || a is ToggleVisualizer
}

/// Actions that change the queue or what plays.
pub open spec fn is_queue_action(a: Action) -> bool {
    a is AddToQueue || a is AddAllToQueue || a is PlayPause || a is NextTrack || a is PrevTrack
        || a is ClearQueue || a is Shuffle || a is Unshuffle
}

/// Volume and seek actions.
pub open spec fn is_player_action(a: Action) -> bool {
    a is VolumeUp || a is VolumeDown || a is SeekForward || a is SeekBackward || a is SeekTo
}

/// Search prompt actions.
pub open spec fn is_search_action(a: Action) -> bool {
    a is SearchStart || a is SearchInput || a is SearchBackspace || a is SearchConfirm
        || a is SearchCancel
}

fn is_view_action_exec(a: Action) -> (b: bool)
    ensures
        b == is_view_action(a),
{
    match a {
        Action::ToggleHelp | Action::Quit | Action::SwitchTab | Action::SwitchTabReverse
        | Action::GoToBrowser | Action::GoToNowPlaying | Action::FocusLeft | Action::Back
        | Action::FocusRight | Action::Navigate(_) | Action::Select | Action::ToggleLyrics
        | Action::ToggleDynamicTheme | Action::ToggleVisualizer => true,
        _ => false,
    }
}

fn is_queue_action_exec(a: Action) -> (b: bool)
    ensures
        b == is_queue_action(a),
{
    match a {
        Action::AddToQueue | Action::AddAllToQueue | Action::PlayPause | Action::NextTrack
        | Action::PrevTrack | Action::ClearQueue | Action::Shuffle | Action::Unshuffle => true,
        _ => false,
    }
}

fn is_player_action_exec(a: Action) -> (b: bool)
    ensures
        b == is_player_action(a),
{
    match a {
        Action::VolumeUp | Action::VolumeDown | Action::SeekForward | Action::SeekBackward
        | Action::SeekTo(_) => true,
        _ => false,
    }
}

fn is_search_action_exec(a: Action) -> (b: bool)
    ensures
        b == is_search_action(a),
{
    match a {
        Action::SearchStart | Action::SearchInput(_) | Action::SearchBackspace
        | Action::SearchConfirm | Action::SearchCancel => true,
        _ => false,
    }
}

/// What one action does to the interface state, and what outside work it requests.
pub open spec fn dispatch_post(o: App, f: App, e: Seq<Effect>, action: Action) -> bool {
    match action {
        Action::ToggleHelp => f == (App { help_visible: !o.help_visible, ..o }) && e.len() == 0,
        Action::Quit => f == (App { should_quit: true, ..o }) && e.len() == 0,
        Action::SwitchTab | Action::SwitchTabReverse => f == show_tab(
            o,
            match o.active_tab {
                Tab::Browser => Tab::NowPlaying,
                Tab::NowPlaying => Tab::Browser,
            },
        ) && e.len() == 0,
        Action::GoToBrowser => f == show_tab(o, Tab::Browser) && e.len() == 0,
        Action::GoToNowPlaying => f == show_tab(o, Tab::NowPlaying) && e.len() == 0,
        Action::FocusLeft | Action::Back => f == focus_left_spec(o) && e.len() == 0,
        Action::FocusRight => if o.active_tab == Tab::Browser {
            focus_right_post(o, f, e)
        } else {
            f == o && e.len() == 0
        },
        Action::Navigate(dir) => if o.active_tab == Tab::NowPlaying && o.lyrics_visible
            && o.lyrics_unsynced_spec() {
            f == lyrics_scroll_spec(o, dir) && e.len() == 0
        } else {
            navigate_post(o, f, e, dir)
        },
        Action::Select => select_post(o, f, e),
        Action::AddToQueue => add_to_queue_post(o, f, e),
        Action::AddAllToQueue => add_all_post(o, f, e),
        Action::PlayPause => play_pause_post(o, f, e),
        Action::NextTrack => if o.queue.cursor + 1 < o.queue.songs@.len() {
            play_at_post(o, f, e, (o.queue.cursor + 1) as usize)
        } else {
            f == o && e.len() == 0
        },
        Action::PrevTrack => if o.queue.cursor > 0 {
            play_at_post(o, f, e, (o.queue.cursor - 1) as usize)
        } else {
            f == o && e.len() == 0
        },
        Action::VolumeUp => volume_post(o, f, e, volume_up(o.config.default_volume)),
        Action::VolumeDown => volume_post(o, f, e, volume_down(o.config.default_volume)),
        Action::ClearQueue => clear_queue_post(o, f, e),
        Action::Shuffle => shuffle_post(o, f) && e.len() == 0,
        Action::Unshuffle => unshuffle_post(o, f) && e.len() == 0,
        Action::SeekForward => seek_post(
            o,
            f,
            e,
            seek_clamp(sat_add_u64(o.playback.elapsed_ms, 10_000), o.playback.total_ms),
        ),
        Action::SeekBackward => seek_post(
            o,
            f,
            e,
            if o.playback.elapsed_ms < 10_000 {
                0
            } else {
                (o.playback.elapsed_ms - 10_000) as u64
            },
        ),
        Action::SeekTo(pos) => seek_post(o, f, e, seek_clamp(pos, o.playback.total_ms)),
        Action::SearchStart => e.len() == 0 && prompt_is(f, true, Seq::empty(), 0) && f == (App {
            search_mode: f.search_mode,
            search_filter: None,
            ..o
        }),
        Action::SearchInput(c) => e.len() == 0 && if o.search_mode.active {
            prompt_is(f, true, o.search_mode.query@.push(c), 0) && f == (App {
                search_mode: f.search_mode,
                ..o
            })
        } else {
            f == o
        },
        Action::SearchBackspace => e.len() == 0 && if o.search_mode.active {
            prompt_is(
                f,
                true,
                if o.search_mode.query@.len() == 0 {
                    o.search_mode.query@
                } else {
                    o.search_mode.query@.drop_last()
                },
                0,
            ) && f == (App { search_mode: f.search_mode, ..o })
        } else {
            f == o
        },
        Action::SearchConfirm => e.len() == 0 && if o.search_mode.active {
            search_commit_post(o, f)
        } else {
            f == o
        },
        Action::SearchCancel => e.len() == 0 && prompt_is(f, false, Seq::empty(), 0) && f == (App {
            search_mode: f.search_mode,
            search_filter: None,
            ..o
        }),
        Action::ToggleLyrics => toggle_lyrics_post(o, f, e),
        Action::ToggleDynamicTheme => f == (App { dynamic_theme: !o.dynamic_theme, ..o }) && e
            == seq![Effect::DynamicTheme(!o.dynamic_theme)],
        Action::ToggleVisualizer => f == (App { visualizer_visible: !o.visualizer_visible, ..o })
            && e.len() == 0,
        _ => f == o && e.len() == 0,
    }
}

impl App {
    /// The maps are well formed and the cursor can be advanced without overflow.
    pub open spec fn wf(&self) -> bool {
        self.library.wf() && self.queue.cursor < usize::MAX
    }

    /// A fresh interface: Browser tab, Artists column, nothing loaded, empty queue.
    pub fn new(config: Config) -> (app: App)
        ensures
            app.wf(),
            app.active_tab == Tab::Browser,
            app.browser_focus == BrowserColumn::Artists,
            app.library.artists is NotLoaded,
            app.library.selected_artist.is_none(),
            app.library.albums.view().len() == 0,
            app.library.tracks.view().len() == 0,
            app.queue.songs@.len() == 0,
            app.queue.cursor == 0,
            app.playback.current_song.is_none(),
            !app.playback.player_loaded,
            !app.should_quit,
            !app.search_mode.active,
            app.search_filter.is_none(),
            app.art_cache.is_none(),
            !app.help_visible,
            app.lyrics_visible == config.lyrics_visible,
            !app.visualizer_visible,
            app.lyrics_cache.is_none(),
            app.dynamic_theme == config.theme.dynamic,
            app.play_gen == 0,
            app.config == config,
    {
        let lyrics_visible = config.lyrics_visible;
        let dynamic = config.theme.dynamic;
        let app = App {
            active_tab: Tab::Browser,
            browser_focus: BrowserColumn::Artists,
            library: LibraryState::new(),
            queue: QueueState::new(),
            playback: PlaybackState::new(),
            config,
            should_quit: false,
            search_mode: SearchMode { active: false, query: String::new(), selected: 0 },
            search_filter: None,
            kitty_supported: false,
            art_cache: None,
            help_visible: false,
            lyrics_visible,
            visualizer_visible: false,
            lyrics_cache: None,
            lyrics_scroll: 0,
            lyrics_loading: false,
            dynamic_theme: dynamic,
            play_gen: 0,
        };
        proof {
            assert(app.library.albums.view() =~= Map::empty());
            assert(app.library.tracks.view() =~= Map::empty());
        }
        app
    }

    /// What to do right after start-up: apply the configured volume.
    pub fn initial_effects(&self) -> (e: Vec<Effect>)
        ensures
            e@ == seq![Effect::Player(PlayerCommand::SetVolume(self.config.default_volume))],
    {
        let mut e: Vec<Effect> = Vec::new();
        e.push(Effect::Player(PlayerCommand::SetVolume(self.config.default_volume)));
        e
    }

    /// Lyrics are cached and none of their lines carries a timestamp.
    pub open spec fn lyrics_unsynced_spec(&self) -> bool {
        match self.lyrics_cache {
            Some((_, lines)) => forall|i: int|
                0 <= i < lines@.len() ==> (#[trigger] lines@[i]).time_ms.is_none(),
            None => false,
        }
    }

    /// `true` when every cached lyrics line is untimed (plain text, scrolled by hand).
    pub fn lyrics_are_unsynced(&self) -> (b: bool)
        ensures
            b == self.lyrics_unsynced_spec(),
    {
        match &self.lyrics_cache {
            Some((_, lines)) => {
                let mut i: usize = 0;
                while i < lines.len()
                    invariant
                        self.lyrics_cache is Some && self.lyrics_cache.unwrap().1 == *lines,
                        i <= lines@.len(),
                        forall|j: int| 0 <= j < i ==> (#[trigger] lines@[j]).time_ms.is_none(),
                    decreases lines.len() - i,
                {
                    if lines[i].time_ms.is_some() {
                        assert(lines@[i as int].time_ms.is_some());
                        return false;
                    }
                    i = i + 1;
                }
                true
            },
            None => false,
        }
    }

    fn request_albums(&mut self, artist_id: String) -> (e: Vec<Effect>)
        requires
            old(self).wf(),
        ensures
            final(self).wf(),
            final(self).library.albums.view() == requested(
                old(self).library.albums.view(),
                artist_id@,
            ),
            e@ == request_effects(
                old(self).library.albums.view(),
                artist_id@,
                Effect::FetchAlbums(artist_id),
            ),
            *final(self) == (App {
                library: LibraryState { albums: final(self).library.albums, ..old(self).library },
                ..*old(self)
            }),
    {
        let mut e: Vec<Effect> = Vec::new();
        if !self.library.albums.contains_key(artist_id.as_str()) {
            let id2 = artist_id.clone();
            self.library.albums.insert(artist_id, LoadingState::Loading);
            e.push(Effect::FetchAlbums(id2));
        }
        e
    }

    fn request_tracks(&mut self, album_id: String) -> (e: Vec<Effect>)
        requires
            old(self).wf(),
        ensures
            final(self).wf(),
            final(self).library.tracks.view() == requested(
                old(self).library.tracks.view(),
                album_id@,
            ),
            e@ == request_effects(
                old(self).library.tracks.view(),
                album_id@,
                Effect::FetchTracks(album_id),
            ),
            *final(self) == (App {
                library: LibraryState { tracks: final(self).library.tracks, ..old(self).library },
                ..*old(self)
            }),
    {
        let mut e: Vec<Effect> = Vec::new();
        if !self.library.tracks.contains_key(album_id.as_str()) {
            let id2 = album_id.clone();
            self.library.tracks.insert(album_id, LoadingState::Loading);
            e.push(Effect::FetchTracks(id2));
        }
        e
    }

    /// Plays the song under the queue cursor, if any.
    fn play_current(&mut self) -> (e: Vec<Effect>)
        ensures
            play_current_post(*old(self), *final(self), e@),
    {
        let mut e: Vec<Effect> = Vec::new();
        if let Some(song) = self.queue.current() {
            let song = song.clone();
            self.play_gen = self.play_gen.wrapping_add(1);
            self.playback.current_song = Some(song.clone());
            self.playback.player_loaded = true;
            e.push(Effect::Play { song, gen: self.play_gen });
        }
        e
    }

    // ── Focus movement ────────────────────────────────────────────────────────

    /// Browser tab: clear the filter and move focus one column left.
    fn handle_focus_left(&mut self)
        ensures
            *final(self) == focus_left_spec(*old(self)),
    {
        if self.active_tab != Tab::Browser {
            return;
        }
        self.search_filter = None;
        self.browser_focus = self.browser_focus.left();
    }

    /// Browser tab: clear the filter, request the data of the next column, move focus right.
    fn handle_focus_right(&mut self) -> (e: Vec<Effect>)
        requires
            old(self).wf(),
        ensures
            final(self).wf(),
            old(self).active_tab != Tab::Browser ==> *final(self) == *old(self) && e@.len() == 0,
            old(self).active_tab == Tab::Browser ==> focus_right_post(*old(self), *final(self), e@),
    {
        if self.active_tab != Tab::Browser {
            return Vec::new();
        }
        self.search_filter = None;
        match self.browser_focus {
            BrowserColumn::Artists => {
                let mut e = Vec::new();
                if let Some(artist) = self.library.current_artist() {
                    let id = artist.id.clone();
                    e = self.request_albums(id);
                }
                self.browser_focus = BrowserColumn::Albums;
                e
            },
            BrowserColumn::Albums => {
                let mut e = Vec::new();
                if let Some(album) = self.library.current_album() {
                    let id = album.id.clone();
                    e = self.request_tracks(id);
                }
                self.browser_focus = BrowserColumn::Tracks;
                e
            },
            BrowserColumn::Tracks => Vec::new(),
        }
    }

    // ── Navigation ────────────────────────────────────────────────────────────

    /// NowPlaying tab: move the queue cursor (and scroll) within the queue.
    fn handle_navigate_queue(&mut self, dir: Direction)
        requires
            old(self).wf(),
        ensures
            final(self).wf(),
            *final(self) == (if old(self).queue.songs@.len() == 0 {
                *old(self)
            } else {
                let c = nav_pos(
                    old(self).queue.cursor as int,
                    old(self).queue.songs@.len() as int,
                    dir,
                ) as usize;
                App { queue: QueueState { cursor: c, scroll: c, ..old(self).queue }, ..*old(self) }
            }),
    {
        let len = self.queue.songs.len();
        if len == 0 {
            return;
        }
        let c = self.queue.cursor;
        let nc = match dir {
            Direction::Up => if c > 0 {
                c - 1
            } else {
                0
            },
            Direction::Down => if c + 1 < len - 1 {
                c + 1
            } else {
                len - 1
            },
            Direction::Top => 0,
            Direction::Bottom => len - 1,
        };
        self.queue.cursor = nc;
        self.queue.scroll = nc;
    }

    /// Browser tab: move the selection of the focused column within its filtered list,
    /// resetting the selections to its right and requesting the data they show.
    fn handle_navigate_browser(&mut self, dir: Direction) -> (e: Vec<Effect>)
        requires
            old(self).wf(),
        ensures
            final(self).wf(),
            navigate_browser_post(*old(self), *final(self), e@, dir),
    {
        match self.browser_focus {
            BrowserColumn::Artists => {
                let target = if let LoadingState::Loaded(artists) = &self.library.artists {
                    let names = name_list_of_artists(artists);
                    let idx = visible_indices(&names, &self.search_filter);
                    if idx.len() == 0 {
                        return Vec::new();
                    }
                    proof {
                        lemma_visible_in_range(artist_names(artists@), opt_view(self.search_filter));
                    }
                    let ni = nav_target(&idx, self.library.selected_artist, dir);
                    Some((ni, artists[ni].id.clone()))
                } else {
                    None
                };
                match target {
                    Some((ni, id)) => {
                        self.library.selected_artist = Some(ni);
                        self.library.selected_album = Some(0);
                        self.library.selected_track = Some(0);
                        self.request_albums(id)
                    },
                    None => Vec::new(),
                }
            },
            BrowserColumn::Albums => {
                let target = {
                    let artist = match self.library.current_artist() {
                        Some(a) => a,
                        None => return Vec::new(),
                    };
                    if let Some(LoadingState::Loaded(albums)) = self.library.albums.get(
                        artist.id.as_str(),
                    ) {
                        let names = name_list_of_albums(albums);
                        let idx = visible_indices(&names, &self.search_filter);
                        if idx.len() == 0 {
                            return Vec::new();
                        }
                        proof {
                            lemma_visible_in_range(album_names(albums@), opt_view(self.search_filter));
                        }
                        let ni = nav_target(&idx, self.library.selected_album, dir);
                        Some((ni, albums[ni].id.clone()))
                    } else {
                        None
                    }
                };
                match target {
                    Some((ni, id)) => {
                        self.library.selected_album = Some(ni);
                        self.library.selected_track = Some(0);
                        self.request_tracks(id)
                    },
                    None => Vec::new(),
                }
            },
            BrowserColumn::Tracks => {
                let target = {
                    let album = match self.library.current_album() {
                        Some(a) => a,
                        None => return Vec::new(),
                    };
                    if let Some(LoadingState::Loaded(songs)) = self.library.tracks.get(
                        album.id.as_str(),
                    ) {
                        let names = title_list_of_songs(songs);
                        let idx = visible_indices(&names, &self.search_filter);
                        if idx.len() == 0 {
                            return Vec::new();
                        }
                        Some(nav_target(&idx, self.library.selected_track, dir))
                    } else {
                        None
                    }
                };
                if let Some(ni) = target {
                    self.library.selected_track = Some(ni);
                }
                Vec::new()
            },
        }
    }

    /// Navigation goes to the browser columns or to the queue, depending on the tab.
    fn handle_navigate(&mut self, dir: Direction) -> (e: Vec<Effect>)
        requires
            old(self).wf(),
        ensures
            final(self).wf(),
            navigate_post(*old(self), *final(self), e@, dir),
    {
        match self.active_tab {
            Tab::Browser => self.handle_navigate_browser(dir),
            Tab::NowPlaying => {
                self.handle_navigate_queue(dir);
                Vec::new()
            },
        }
    }

    fn handle_add_to_queue(&mut self) -> (e: Vec<Effect>)
        requires
            old(self).wf(),
        ensures
            final(self).wf(),
            add_to_queue_post(*old(self), *final(self), e@),
    {
        let song = match self.library.current_track() {
            Some(s) => s.clone(),
            None => return Vec::new(),
        };
        let was_empty = self.queue.songs.len() == 0;
        self.queue.push(song);
        if was_empty {
            self.queue.cursor = 0;
            return self.play_current();
        }
        Vec::new()
    }

    fn handle_add_all_to_queue(&mut self) -> (e: Vec<Effect>)
        requires
            old(self).wf(),
        ensures
            final(self).wf(),
            add_all_post(*old(self), *final(self), e@),
    {
        match self.browser_focus {
            BrowserColumn::Artists | BrowserColumn::Albums => {
                let mut e: Vec<Effect> = Vec::new();
                if let Some(artist) = self.library.current_artist() {
                    let artist_id = artist.id.clone();
                    let start_playing = self.queue.songs.len() == 0;
                    e.push(Effect::FetchAllTracksForArtist { artist_id, start_playing });
                }
                e
            },
            BrowserColumn::Tracks => {
                let songs = {
                    let album = match self.library.current_album() {
                        Some(a) => a,
                        None => return Vec::new(),
                    };
                    match self.library.tracks.get(album.id.as_str()) {
                        Some(LoadingState::Loaded(songs)) => crate::models::clone_songs(songs),
                        _ => return Vec::new(),
                    }
                };
                self.append_songs(songs, false, true)
            },
        }
    }

    /// Sorts `songs` and appends them to the queue (see `appended_post`).
    fn append_songs(&mut self, songs: Vec<Song>, by_album: bool, play_if_empty: bool) -> (e: Vec<
        Effect,
    >)
        requires
            old(self).wf(),
        ensures
            final(self).wf(),
            appended_post(*old(self), *final(self), e@, songs@, by_album, play_if_empty),
    {
        let ghost ss = songs@;
        let was_empty = self.queue.songs.len() == 0;
        let sorted = crate::sort::sort_songs(songs, by_album);
        proof {
            ss.to_multiset_ensures();
            sorted@.to_multiset_ensures();
        }
        let ghost base = self.queue.songs@;
        let mut i: usize = 0;
        while i < sorted.len()
            invariant
                i <= sorted@.len(),
                self.queue.songs@ == base + sorted@.take(i as int),
                self.queue.cursor == old(self).queue.cursor,
                self.queue.scroll == old(self).queue.scroll,
                add_order(self.queue) == add_order(old(self).queue) + sorted@.take(i as int),
                i == 0 ==> self.queue.pre_shuffle_order == old(self).queue.pre_shuffle_order,
                *self == (App { queue: self.queue, ..*old(self) }),
                base == old(self).queue.songs@,
            decreases sorted.len() - i,
        {
            let ghost before = add_order(self.queue);
            self.queue.push(sorted[i].clone());
            assert(sorted@.take(i + 1) == sorted@.take(i as int).push(sorted@[i as int]));
            assert(add_order(self.queue) == before.push(sorted@[i as int]));
            i = i + 1;
        }
        proof {
            assert(sorted@.take(sorted@.len() as int) == sorted@);
            assert(self.queue.songs@.skip(base.len() as int) == sorted@);
            assert(self.queue.songs@.take(base.len() as int) == base);
        }
        if play_if_empty && was_empty && self.queue.songs.len() > 0 {
            self.queue.cursor = 0;
            return self.play_current();
        }
        Vec::new()
    }

    /// Enter key.
    fn handle_select(&mut self) -> (e: Vec<Effect>)
        requires
            old(self).wf(),
        ensures
            final(self).wf(),
            select_post(*old(self), *final(self), e@),
    {
        match self.active_tab {
            Tab::Browser => match self.browser_focus {
                BrowserColumn::Artists | BrowserColumn::Albums => self.handle_focus_right(),
                BrowserColumn::Tracks => self.handle_add_to_queue(),
            },
            Tab::NowPlaying => Vec::new(),
        }
    }

    /// Shuffles the queue from a given seed (see `shuffled_queue`).
    pub fn shuffle_with_seed(&mut self, seed: u64)
        requires
            old(self).wf(),
        ensures
            final(self).wf(),
            shuffle_post(*old(self), *final(self)),
            old(self).queue.songs@.len() >= 2 ==> final(self).queue.songs@ == shuffled_queue(
                *old(self),
                seed,
            ),
    {
        let len = self.queue.songs.len();
        if len < 2 {
            return;
        }
        let state = lcg_next(seed);
        let cursor = self.queue.cursor;
        if self.playback.current_song.is_some() && cursor < len {
            swap_songs(&mut self.queue.songs, 0, cursor);
            proof {
                let s = old(self).queue.songs@;
                crate::sort::lemma_swap_multiset(s, 0, cursor as int);
                lemma_fisher_yates(swapped(s, 0, cursor as int), len - 1, state, 1);
            }
            shuffle_songs(&mut self.queue.songs, 1, state);
        } else {
            proof {
                lemma_fisher_yates(old(self).queue.songs@, len - 1, state, 0);
            }
            shuffle_songs(&mut self.queue.songs, 0, state);
        }
        self.queue.cursor = 0;
        self.queue.scroll = 0;
    }

    /// Shuffles the queue, seeded from the clock's sub-second nanoseconds (12345 when
    /// the clock cannot be read).
    fn handle_shuffle(&mut self)
        requires
            old(self).wf(),
        ensures
            final(self).wf(),
            shuffle_post(*old(self), *final(self)),
    {
        let seed: u64 = match crate::clock::since_unix_epoch() {
            Some((_, n)) => n as u64,
            None => 12345,
        };
        self.shuffle_with_seed(seed);
    }

    /// Applies the typed query: moves the selection of the focused list to its first
    /// match (case-insensitive substring).
    fn handle_search_confirm(&mut self)
        requires
            old(self).wf(),
        ensures
            final(self).wf(),
            search_confirm_post(*old(self), *final(self)),
    {
        let q = to_lowercase(self.search_mode.query.as_str());
        if q.as_str().is_empty() {
            return;
        }
        match self.active_tab {
            Tab::Browser => match self.browser_focus {
                BrowserColumn::Artists => {
                    let found = if let LoadingState::Loaded(artists) = &self.library.artists {
                        let names = name_list_of_artists(artists);
                        first_match_in(&names, &q)
                    } else {
                        None
                    };
                    if let Some(k) = found {
                        self.library.selected_artist = Some(k);
                    }
                },
                BrowserColumn::Albums => {
                    let found = {
                        let artist = match self.library.current_artist() {
                            Some(a) => a,
                            None => return,
                        };
                        if let Some(LoadingState::Loaded(albums)) = self.library.albums.get(
                            artist.id.as_str(),
                        ) {
                            let names = name_list_of_albums(albums);
                            first_match_in(&names, &q)
                        } else {
                            None
                        }
                    };
                    if let Some(k) = found {
                        self.library.selected_album = Some(k);
                    }
                },
                BrowserColumn::Tracks => {
                    let found = {
                        let album = match self.library.current_album() {
                            Some(a) => a,
                            None => return,
                        };
                        if let Some(LoadingState::Loaded(songs)) = self.library.tracks.get(
                            album.id.as_str(),
                        ) {
                            let names = title_list_of_songs(songs);
                            first_match_in(&names, &q)
                        } else {
                            None
                        }
                    };
                    if let Some(k) = found {
                        self.library.selected_track = Some(k);
                    }
                },
            },
            Tab::NowPlaying => {
                let names = title_list_of_songs(&self.queue.songs);
                let n = names.len();
                if let Some(k) = first_match_in(&names, &q) {
                    assert(k < n);
                    self.queue.cursor = k;
                    self.queue.scroll = k;
                }
            },
        }
    }

    fn handle_clear_queue(&mut self) -> (e: Vec<Effect>)
        requires
            old(self).wf(),
        ensures
            final(self).wf(),
            clear_queue_post(*old(self), *final(self), e@),
    {
        self.queue.songs.clear();
        self.queue.cursor = 0;
        self.queue.scroll = 0;
        self.queue.pre_shuffle_order = None;
        self.playback.current_song = None;
        self.playback.elapsed_ms = 0;
        self.playback.paused = false;
        self.playback.player_loaded = false;
        let mut e: Vec<Effect> = Vec::new();
        e.push(Effect::Player(PlayerCommand::Stop));
        e
    }

    fn handle_unshuffle(&mut self)
        requires
            old(self).wf(),
        ensures
            final(self).wf(),
            unshuffle_post(*old(self), *final(self)),
    {
        let original = match &self.queue.pre_shuffle_order {
            Some(o) => crate::models::clone_songs(o),
            None => return,
        };
        let current_id = match self.queue.current() {
            Some(s) => Some(s.id.clone()),
            None => None,
        };
        self.queue.songs = original;
        if let Some(id) = current_id {
            let mut k: usize = 0;
            while k < self.queue.songs.len()
                invariant
                    self.wf(),
                    *self == (App {
                        queue: QueueState { songs: self.queue.songs, ..old(self).queue },
                        ..*old(self)
                    }),
                    old(self).queue.pre_shuffle_order is Some,
                    self.queue.songs@ == old(self).queue.pre_shuffle_order.unwrap()@,
                    old(self).queue.current_spec() is Some,
                    old(self).queue.current_spec().unwrap().id@ == id@,
                    k <= self.queue.songs@.len(),
                    forall|j: int|
                        0 <= j < k ==> (#[trigger] song_ids(self.queue.songs@)[j]) != id@,
                decreases self.queue.songs.len() - k,
            {
                if crate::text::str_eq(self.queue.songs[k].id.as_str(), id.as_str()) {
                    proof {
                        let ids = song_ids(self.queue.songs@);
                        ids.index_of_first_ensures(id@);
                        assert(ids[k as int] == id@);
                        assert(ids.contains(id@));
                        let f = ids.index_of_first(id@).unwrap();
                        if f < k {
                            assert(ids[f] != id@);
                        }
                    }
                    self.queue.cursor = k;
                    self.queue.scroll = k;
                    return;
                }
                k = k + 1;
            }
            proof {
                let ids = song_ids(self.queue.songs@);
                ids.index_of_first_ensures(id@);
                if ids.contains(id@) {
                    let j = choose|j: int| 0 <= j < ids.len() && ids[j] == id@;
                    assert(ids[j] != id@);
                }
            }
        }
    }

    /// The text of an optional string, empty when absent.
    fn string_or_empty(o: &Option<String>) -> (r: String)
        ensures
            r@ == opt_or_empty(*o),
    {
        match o {
            Some(t) => t.clone(),
            None => String::new(),
        }
    }

    /// Whether the cached lyrics belong to the song with id `id`.
    fn lyrics_cached_for_id(&self, id: &str) -> (b: bool)
        ensures
            b == lyrics_cached_for(*self, id@),
    {
        match &self.lyrics_cache {
            Some((cid, _)) => crate::text::str_eq(cid.as_str(), id),
            None => false,
        }
    }

    /// Starts a lyrics request for `song`.
    fn request_lyrics(&mut self, song: &Song) -> (e: Effect)
        ensures
            *final(self) == lyrics_requested(*old(self)),
            is_lyrics_fetch(e, *song),
    {
        self.lyrics_loading = true;
        self.lyrics_scroll = 0;
        Effect::FetchLyrics {
            song_id: song.id.clone(),
            artist: Self::string_or_empty(&song.artist),
            title: song.title.clone(),
            album: Self::string_or_empty(&song.album),
        }
    }

    /// Seeks to `pos` milliseconds.
    fn seek_to(&mut self, pos: u64) -> (e: Vec<Effect>)
        ensures
            seek_post(*old(self), *final(self), e@, pos),
    {
        self.playback.elapsed_ms = pos;
        let mut e: Vec<Effect> = Vec::new();
        e.push(Effect::Player(PlayerCommand::Seek(pos)));
        e
    }

    /// Stores and sends a new volume.
    fn set_volume(&mut self, v: u8) -> (e: Vec<Effect>)
        ensures
            volume_post(*old(self), *final(self), e@, v),
    {
        self.config.default_volume = v;
        let mut e: Vec<Effect> = Vec::new();
        e.push(Effect::Player(PlayerCommand::SetVolume(v)));
        e
    }

    /// Play/pause key.
    fn handle_play_pause(&mut self) -> (e: Vec<Effect>)
        ensures
            play_pause_post(*old(self), *final(self), e@),
    {
        if !self.playback.player_loaded && self.queue.current().is_some() {
            self.play_current()
        } else if self.playback.paused {
            self.playback.paused = false;
            let mut e: Vec<Effect> = Vec::new();
            e.push(Effect::Player(PlayerCommand::Resume));
            e
        } else {
            self.playback.paused = true;
            let mut e: Vec<Effect> = Vec::new();
            e.push(Effect::Player(PlayerCommand::Pause));
            e
        }
    }

    /// Lyrics overlay key.
    fn handle_toggle_lyrics(&mut self) -> (e: Vec<Effect>)
        ensures
            toggle_lyrics_post(*old(self), *final(self), e@),
    {
        let mut e: Vec<Effect> = Vec::new();
        if self.active_tab != Tab::NowPlaying {
            return e;
        }
        self.lyrics_visible = !self.lyrics_visible;
        if self.lyrics_visible {
            if let Some(song) = &self.playback.current_song {
                let song = song.clone();
                if !self.lyrics_cached_for_id(song.id.as_str()) {
                    let f = self.request_lyrics(&song);
                    e.push(f);
                }
            }
        }
        e
    }

    /// Enter in the search prompt.
    fn search_commit(&mut self)
        requires
            old(self).wf(),
        ensures
            final(self).wf(),
            search_commit_post(*old(self), *final(self)),
    {
        let q = to_lowercase(self.search_mode.query.as_str());
        if q.as_str().is_empty() {
            self.search_filter = None;
        } else {
            self.search_filter = Some(q);
        }
        self.handle_search_confirm();
        self.search_mode.active = false;
        self.search_mode.query = String::new();
    }

    /// Search prompt keys.
    fn handle_search_key(&mut self, action: Action) -> (e: Vec<Effect>)
        requires
            old(self).wf(),
            is_search_action(action),
        ensures
            final(self).wf(),
            dispatch_post(*old(self), *final(self), e@, action),
    {
        match action {
            Action::SearchStart => {
                self.search_mode.active = true;
                self.search_mode.query = String::new();
                self.search_mode.selected = 0;
                self.search_filter = None;
            },
            Action::SearchInput(c) => {
                if self.search_mode.active {
                    crate::text::push_char(&mut self.search_mode.query, c);
                    self.search_mode.selected = 0;
                }
            },
            Action::SearchBackspace => {
                if self.search_mode.active {
                    crate::text::pop_char(&mut self.search_mode.query);
                    self.search_mode.selected = 0;
                }
            },
            Action::SearchConfirm => {
                if self.search_mode.active {
                    self.search_commit();
                }
            },
            _ => {
                self.search_mode.active = false;
                self.search_mode.query = String::new();
                self.search_mode.selected = 0;
                self.search_filter = None;
            },
        }
        Vec::new()
    }

    /// Keys that change what is shown.
    fn dispatch_view(&mut self, action: Action) -> (e: Vec<Effect>)
        requires
            old(self).wf(),
            is_view_action(action),
        ensures
            final(self).wf(),
            dispatch_post(*old(self), *final(self), e@, action),
    {
        match action {
            Action::ToggleHelp => {
                self.help_visible = !self.help_visible;
                Vec::new()
            },
            Action::Quit => {
                self.should_quit = true;
                Vec::new()
            },
            Action::SwitchTab | Action::SwitchTabReverse => {
                self.active_tab = self.active_tab.toggle();
                self.search_filter = None;
                Vec::new()
            },
            Action::GoToBrowser => {
                self.active_tab = Tab::Browser;
                self.search_filter = None;
                Vec::new()
            },
            Action::GoToNowPlaying => {
                self.active_tab = Tab::NowPlaying;
                self.search_filter = None;
                Vec::new()
            },
            Action::FocusLeft | Action::Back => {
                self.handle_focus_left();
                Vec::new()
            },
            Action::FocusRight => self.handle_focus_right(),
            Action::Navigate(dir) => {
                if self.active_tab == Tab::NowPlaying && self.lyrics_visible
                    && self.lyrics_are_unsynced() {
                    match dir {
                        Direction::Up | Direction::Top => {
                            self.lyrics_scroll = self.lyrics_scroll.saturating_sub(1);
                        },
                        Direction::Down | Direction::Bottom => {
                            self.lyrics_scroll = self.lyrics_scroll.saturating_add(1);
                        },
                    }
                    Vec::new()
                } else {
                    self.handle_navigate(dir)
                }
            },
            Action::Select => self.handle_select(),
            Action::ToggleLyrics => self.handle_toggle_lyrics(),
            Action::ToggleVisualizer => {
                self.visualizer_visible = !self.visualizer_visible;
                Vec::new()
            },
            _ => {
                self.dynamic_theme = !self.dynamic_theme;
                let mut e: Vec<Effect> = Vec::new();
                e.push(Effect::DynamicTheme(self.dynamic_theme));
                e
            },
        }
    }

    /// Keys that change the queue or what plays.
    fn dispatch_queue(&mut self, action: Action) -> (e: Vec<Effect>)
        requires
            old(self).wf(),
            is_queue_action(action),
        ensures
            final(self).wf(),
            dispatch_post(*old(self), *final(self), e@, action),
    {
        match action {
            Action::AddToQueue => self.handle_add_to_queue(),
            Action::AddAllToQueue => self.handle_add_all_to_queue(),
            Action::PlayPause => self.handle_play_pause(),
            Action::NextTrack => {
                let n = self.queue.songs.len();
                if self.queue.next() {
                    assert(self.queue.cursor < n);
                    self.play_current()
                } else {
                    Vec::new()
                }
            },
            Action::PrevTrack => {
                if self.queue.prev() {
                    self.play_current()
                } else {
                    Vec::new()
                }
            },
            Action::ClearQueue => self.handle_clear_queue(),
            Action::Shuffle => {
                self.handle_shuffle();
                Vec::new()
            },
            _ => {
                self.handle_unshuffle();
                Vec::new()
            },
        }
    }

    /// Volume and seek keys.
    fn dispatch_player(&mut self, action: Action) -> (e: Vec<Effect>)
        requires
            old(self).wf(),
            is_player_action(action),
        ensures
            final(self).wf(),
            dispatch_post(*old(self), *final(self), e@, action),
    {
        match action {
            Action::VolumeUp => {
                let v = self.config.default_volume.saturating_add(5);
                let v = if v > 100 {
                    100
                } else {
                    v
                };
                self.set_volume(v)
            },
            Action::VolumeDown => {
                let v = self.config.default_volume.saturating_sub(5);
                self.set_volume(v)
            },
            Action::SeekForward => {
                let p = self.playback.elapsed_ms.saturating_add(10_000);
                let p = match self.playback.total_ms {
                    Some(t) => if p < t {
                        p
                    } else {
                        t
                    },
                    None => p,
                };
                self.seek_to(p)
            },
            Action::SeekBackward => {
                let p = self.playback.elapsed_ms.saturating_sub(10_000);
                self.seek_to(p)
            },
            Action::SeekTo(pos) => {
                let p = match self.playback.total_ms {
                    Some(t) => if pos < t {
                        pos
                    } else {
                        t
                    },
                    None => pos,
                };
                self.seek_to(p)
            },
            _ => Vec::new(),
        }
    }

    /// Applies one user action; returns the outside work it asks for, in order.
    pub fn dispatch(&mut self, action: Action) -> (e: Vec<Effect>)
        requires
            old(self).wf(),
        ensures
            final(self).wf(),
            dispatch_post(*old(self), *final(self), e@, action),
    {
        if is_view_action_exec(action) {
            self.dispatch_view(action)
        } else if is_queue_action_exec(action) {
            self.dispatch_queue(action)
        } else if is_player_action_exec(action) {
            self.dispatch_player(action)
        } else if is_search_action_exec(action) {
            self.handle_search_key(action)
        } else {
            Vec::new()
        }
    }

    /// Stores the artist list (see `artists_update_post`).
    fn apply_artists(&mut self, result: Result<Vec<Artist>, String>) -> (e: Vec<Effect>)
        requires
            old(self).wf(),
        ensures
            final(self).wf(),
            artists_update_post(*old(self), *final(self), e@, result),
    {
        match result {
            Err(msg) => {
                self.library.artists = LoadingState::Error(msg);
                Vec::new()
            },
            Ok(list) => {
                if list.len() == 0 {
                    self.library.artists = LoadingState::Loaded(list);
                    return Vec::new();
                }
                let s: usize = match self.library.selected_artist {
                    Some(i) => i,
                    None => 0,
                };
                let k = if s < list.len() - 1 {
                    s
                } else {
                    list.len() - 1
                };
                let id = list[k].id.clone();
                self.library.selected_artist = Some(k);
                self.library.artists = LoadingState::Loaded(list);
                self.request_albums(id)
            },
        }
    }

    /// Whether `id` is the id of the highlighted artist.
    fn selected_artist_is(&self, id: &str) -> (b: bool)
        ensures
            b == is_selected_artist(self.library, id@),
    {
        match self.library.current_artist() {
            Some(a) => crate::text::str_eq(a.id.as_str(), id),
            None => false,
        }
    }

    /// Whether `id` is the id of the highlighted album.
    fn selected_album_is(&self, id: &str) -> (b: bool)
        requires
            self.wf(),
        ensures
            b == is_selected_album(self.library, id@),
    {
        match self.library.current_album() {
            Some(a) => crate::text::str_eq(a.id.as_str(), id),
            None => false,
        }
    }

    /// Stores the albums of an artist (see `albums_update_post`).
    fn apply_albums(&mut self, artist_id: String, result: Result<Vec<Album>, String>) -> (e: Vec<
        Effect,
    >)
        requires
            old(self).wf(),
        ensures
            final(self).wf(),
            albums_update_post(*old(self), *final(self), e@, artist_id, result),
    {
        let is_sel = self.selected_artist_is(artist_id.as_str());
        match result {
            Err(msg) => {
                self.library.albums.insert(artist_id, LoadingState::Error(msg));
                Vec::new()
            },
            Ok(list) => {
                if list.len() == 0 {
                    self.library.albums.insert(artist_id, LoadingState::Loaded(list));
                    return Vec::new();
                }
                let tid = if is_sel {
                    let s: usize = match self.library.selected_album {
                        Some(i) => i,
                        None => 0,
                    };
                    let k = if s < list.len() - 1 {
                        s
                    } else {
                        list.len() - 1
                    };
                    self.library.selected_album = Some(k);
                    list[k].id.clone()
                } else {
                    if self.library.selected_album.is_none() {
                        self.library.selected_album = Some(0);
                    }
                    list[0].id.clone()
                };
                let e = self.request_tracks(tid);
                self.library.albums.insert(artist_id, LoadingState::Loaded(list));
                e
            },
        }
    }

    /// Stores the tracks of an album (see `tracks_update_post`).
    fn apply_tracks(&mut self, album_id: String, result: Result<Vec<Song>, String>)
        requires
            old(self).wf(),
        ensures
            final(self).wf(),
            tracks_update_post(*old(self), *final(self), Seq::empty(), album_id, result),
    {
        let is_cur = self.selected_album_is(album_id.as_str());
        match result {
            Err(msg) => {
                self.library.tracks.insert(album_id, LoadingState::Error(msg));
            },
            Ok(list) => {
                if is_cur && list.len() > 0 {
                    let s: usize = match self.library.selected_track {
                        Some(i) => i,
                        None => 0,
                    };
                    let k = if s < list.len() - 1 {
                        s
                    } else {
                        list.len() - 1
                    };
                    self.library.selected_track = Some(k);
                } else if self.library.selected_track.is_none() {
                    self.library.selected_track = Some(0);
                }
                self.library.tracks.insert(album_id, LoadingState::Loaded(list));
            },
        }
    }

    /// Takes in data that a background fetch delivered; returns the work it leads to.
    pub fn apply_library_update(&mut self, update: LibraryUpdate) -> (e: Vec<Effect>)
        requires
            old(self).wf(),
        ensures
            final(self).wf(),
            library_update_post(*old(self), *final(self), e@, update),
    {
        match update {
            LibraryUpdate::Artists(result) => self.apply_artists(result),
            LibraryUpdate::Albums { artist_id, result } => self.apply_albums(artist_id, result),
            LibraryUpdate::Tracks { album_id, result } => {
                self.apply_tracks(album_id, result);
                Vec::new()
            },
            LibraryUpdate::AllTracksForArtist { songs, start_playing } => self.append_songs(
                songs,
                true,
                start_playing,
            ),
            LibraryUpdate::CoverArt { cover_id, bytes } => {
                self.art_cache = Some((cover_id, bytes));
                let mut e: Vec<Effect> = Vec::new();
                e.push(Effect::AccentFromArt);
                e
            },
            LibraryUpdate::Lyrics { song_id, lines } => {
                self.lyrics_loading = false;
                self.lyrics_cache = Some((song_id, lines));
                self.lyrics_scroll = 0;
                Vec::new()
            },
            LibraryUpdate::CacheTrack { song_id, album_id, bytes } => {
                let mut e: Vec<Effect> = Vec::new();
                e.push(Effect::CachePut { song_id, album_id, bytes });
                e
            },
        }
    }

    /// Whether the cached cover art has id `id`.
    fn art_cached_for_id(&self, id: &str) -> (b: bool)
        ensures
            b == art_cached_for(*self, id@),
    {
        match &self.art_cache {
            Some((cid, _)) => crate::text::str_eq(cid.as_str(), id),
            None => false,
        }
    }

    /// A request to store `s` in the offline cache.
    fn cache_download(s: &Song) -> (e: Effect)
        ensures
            is_cache_download(e, *s),
    {
        Effect::CacheDownload { song_id: s.id.clone(), album_id: Self::string_or_empty(&s.album_id) }
    }

    /// The cover art work for `song` (see `cover_effects`).
    fn cover_work(&self, song: &Song) -> (e: Vec<Effect>)
        ensures
            e@ == cover_effects(*self, *song),
    {
        let mut e: Vec<Effect> = Vec::new();
        match &song.cover_art {
            Some(cid) => {
                if self.art_cached_for_id(cid.as_str()) {
                    e.push(Effect::AccentFromArt);
                } else {
                    e.push(Effect::AccentClear);
                    e.push(Effect::FetchCoverArt(cid.clone()));
                }
            },
            None => {
                e.push(Effect::AccentClear);
            },
        }
        e
    }

    /// Appends the cache downloads when `song`, under the cursor, starts (see
    /// `prefetch_songs`).
    fn prefetch_work(&self, song: &Song, e: &mut Vec<Effect>)
        requires
            self.wf(),
        ensures
            final(e)@.take(old(e)@.len() as int) == old(e)@,
            final(e)@.len() >= old(e)@.len(),
            downloads_match(final(e)@.skip(old(e)@.len() as int), prefetch_songs(*self, *song)),
    {
        let ghost e0 = e@;
        if self.config.cache_enabled {
            e.push(Self::cache_download(song));
            let cur = self.queue.cursor;
            let n = self.queue.songs.len();
            if cur + 1 < n {
                e.push(Self::cache_download(&self.queue.songs[cur + 1]));
                if cur + 2 < n {
                    e.push(Self::cache_download(&self.queue.songs[cur + 2]));
                }
            }
        }
        proof {
            assert(e@.take(e0.len() as int) == e0);
            let d = e@.skip(e0.len() as int);
            let p = prefetch_songs(*self, *song);
            assert(d.len() == p.len());
            assert forall|i: int| 0 <= i < p.len() implies is_cache_download(#[trigger] d[i], p[i]) by {
                assert(d[i] == e@[e0.len() + i]);
            }
        }
    }

    /// `song` starts playing (see `started_post`); with `prefetch`, it is the song under
    /// the cursor and the cache downloads are requested.
    fn song_started(&mut self, song: Song, prefetch: bool) -> (e: Vec<Effect>)
        requires
            old(self).wf(),
        ensures
            final(self).wf(),
            started_post(
                *old(self),
                *final(self),
                e@,
                song,
                if prefetch {
                    prefetch_songs(*old(self), song)
                } else {
                    Seq::empty()
                },
            ),
    {
        let mut e = self.cover_work(&song);
        let ghost c = e@;
        let ghost o = *self;
        if !self.lyrics_cached_for_id(song.id.as_str()) {
            let l = self.request_lyrics(&song);
            e.push(l);
            assert(is_lyrics_fetch(e@[c.len() as int], song));
        }
        let ghost cl = e@;
        assert(cl.len() == c.len() + (if lyrics_cached_for(o, song.id@) { 0int } else { 1int }));
        if prefetch {
            self.prefetch_work(&song, &mut e);
            assert(prefetch_songs(*self, song) == prefetch_songs(o, song));
        }
        proof {
            assert(e@.take(c.len() as int) == c) by {
                assert(e@.take(cl.len() as int) == cl);
            }
            if !prefetch {
                assert(e@.skip(cl.len() as int) == Seq::<Effect>::empty());
            }
        }
        self.playback.current_song = Some(song);
        e
    }

    fn on_track_started(&mut self) -> (e: Vec<Effect>)
        requires
            old(self).wf(),
        ensures
            final(self).wf(),
            player_event_post(*old(self), *final(self), e@, PlayerEvent::TrackStarted),
    {
        let ghost o = *self;
        self.playback.paused = false;
        match self.queue.current() {
            Some(song) => {
                let song = song.clone();
                assert(prefetch_songs(*self, song) == prefetch_songs(o, song));
                self.song_started(song, true)
            },
            None => Vec::new(),
        }
    }

    fn on_about_to_finish(&self) -> (e: Vec<Effect>)
        requires
            self.wf(),
        ensures
            player_event_post(*self, *self, e@, PlayerEvent::AboutToFinish),
    {
        let mut e: Vec<Effect> = Vec::new();
        if let Some(next) = self.queue.peek_next() {
            let duration_ms = match next.duration {
                Some(secs) => Some(secs as u64 * 1000),
                None => None,
            };
            e.push(Effect::EnqueueNext { song_id: next.id.clone(), duration_ms });
        }
        e
    }

    fn on_track_advanced(&mut self) -> (e: Vec<Effect>)
        requires
            old(self).wf(),
        ensures
            final(self).wf(),
            player_event_post(*old(self), *final(self), e@, PlayerEvent::TrackAdvanced),
    {
        let n = self.queue.songs.len();
        if self.queue.next() {
            assert(self.queue.cursor < n);
        }
        self.playback.paused = false;
        self.playback.elapsed_ms = 0;
        match self.queue.current() {
            Some(song) => {
                let song = song.clone();
                self.song_started(song, false)
            },
            None => Vec::new(),
        }
    }

    fn on_track_ended(&mut self) -> (e: Vec<Effect>)
        requires
            old(self).wf(),
        ensures
            final(self).wf(),
            player_event_post(*old(self), *final(self), e@, PlayerEvent::TrackEnded),
    {
        let n = self.queue.songs.len();
        if self.queue.next() {
            assert(self.queue.cursor < n);
            self.play_current()
        } else {
            self.playback.current_song = None;
            self.playback.elapsed_ms = 0;
            Vec::new()
        }
    }

    /// Takes in an event of the audio engine; returns the work it leads to.
    pub fn handle_player_event(&mut self, event: PlayerEvent) -> (e: Vec<Effect>)
        requires
            old(self).wf(),
        ensures
            final(self).wf(),
            player_event_post(*old(self), *final(self), e@, event),
    {
        match event {
            PlayerEvent::TrackStarted => self.on_track_started(),
            PlayerEvent::Progress { elapsed_ms, total_ms } => {
                self.playback.elapsed_ms = elapsed_ms;
                if total_ms.is_some() {
                    self.playback.total_ms = total_ms;
                }
                Vec::new()
            },
            PlayerEvent::AboutToFinish => self.on_about_to_finish(),
            PlayerEvent::TrackAdvanced => self.on_track_advanced(),
            PlayerEvent::TrackEnded => self.on_track_ended(),
            PlayerEvent::Error(msg) => {
                let mut e: Vec<Effect> = Vec::new();
                e.push(Effect::ReportError(msg));
                e
            },
        }
    }

    /// The progress-bar target of a click at column `x` of the progress area `prog`.
    fn seek_target_of(&self, x: u16, prog: Rect) -> (t: ClickTarget)
        ensures
            t == seek_target(*self, x, prog),
    {
        match self.playback.total_ms {
            Some(t) => {
                let ts = t / 1000;
                let el = crate::text::clock_label_len(self.playback.elapsed_ms / 1000);
                let tl = crate::text::clock_label_len(ts);
                let bs: u64 = prog.x as u64 + el as u64 + 2;
                let be: u64 = (prog.x as u64 + prog.width as u64).saturating_sub(tl as u64 + 2);
                if x as u64 >= bs && be > bs {
                    ClickTarget::Seek {
                        offset: (x as u64 - bs) as u32,
                        width: (be - bs) as u32,
                        total_secs: ts,
                    }
                } else {
                    ClickTarget::Nothing
                }
            },
            None => ClickTarget::Nothing,
        }
    }

    /// Finds what lies under a left click at `(x, y)` on a screen of size `area`.
    pub fn click_target_of(&self, x: u16, y: u16, area: Rect) -> (t: ClickTarget)
        ensures
            t == click_target(*self, x, y, area),
    {
        let l = crate::layout::build_layout(area);
        let np = l.now_playing;
        let cols = crate::layout::bar_split(np);
        let ctl = cols[1];
        let prog = cols[2];
        let xx = x as u32;
        let yy = y as u32;
        if yy == np.y as u32 + 1 && ctl.x <= x && xx < ctl.x as u32 + ctl.width as u32 {
            let rel = x - ctl.x;
            let third = ctl.width / 3;
            let act = if rel < third {
                Action::PrevTrack
            } else if (rel as u32) < 2 * third as u32 {
                Action::PlayPause
            } else {
                Action::NextTrack
            };
            return ClickTarget::Control(act);
        }
        if yy == np.y as u32 + 2 && prog.x <= x && xx < prog.x as u32 + prog.width as u32
            && self.playback.current_song.is_some() {
            return self.seek_target_of(x, prog);
        }
        let c = l.center;
        if yy < c.y as u32 || yy >= c.y as u32 + c.height as u32 {
            return ClickTarget::Nothing;
        }
        match self.active_tab {
            Tab::Browser => {
                let bc = crate::layout::browser_split(c);
                let ci: usize = if x < bc[1].x {
                    0
                } else if x < bc[2].x {
                    1
                } else {
                    2
                };
                let col = bc[ci];
                if y <= col.y || yy >= col.y as u32 + col.height as u32 - 1 {
                    ClickTarget::Nothing
                } else {
                    ClickTarget::BrowserRow {
                        column: if ci == 0 {
                            BrowserColumn::Artists
                        } else if ci == 1 {
                            BrowserColumn::Albums
                        } else {
                            BrowserColumn::Tracks
                        },
                        row: (y - col.y - 1) as usize,
                        height: col.height.saturating_sub(2) as usize,
                    }
                }
            },
            Tab::NowPlaying => {
                let (_, q) = crate::layout::now_playing_split_center(c);
                if x < q.x || xx >= q.x as u32 + q.width as u32 || y <= q.y || yy >= q.y as u32
                    + q.height as u32 - 1 {
                    ClickTarget::Nothing
                } else {
                    ClickTarget::QueueRow((y - q.y - 1) as usize)
                }
            },
        }
    }

    /// The entry of `v` shown at list row `row` (see `row_pick`).
    fn pick_row(v: &Vec<usize>, sel: Option<usize>, row: usize, height: usize) -> (r: Option<usize>)
        ensures
            r == row_pick(v@, sel, row as int, height as int),
    {
        let sp: usize = match sel {
            Some(s) => match position_of(v, s) {
                Some(p) => p,
                None => 0,
            },
            None => 0,
        };
        let scroll = sp.saturating_sub(height.saturating_sub(1));
        let n = v.len();
        match scroll.checked_add(row) {
            Some(k) => if k < v.len() {
                Some(v[k])
            } else {
                None
            },
            None => {
                assert(scroll + row > n);
                None
            },
        }
    }

    /// A click on row `row` of a browser column showing `height` rows.
    fn browser_click(&mut self, column: BrowserColumn, row: usize, height: usize) -> (e: Vec<Effect>)
        requires
            old(self).wf(),
        ensures
            final(self).wf(),
            browser_click_post(*old(self), *final(self), e@, column, row, height),
    {
        let ghost o = *self;
        match column {
            BrowserColumn::Artists => {
                let k = if let LoadingState::Loaded(artists) = &self.library.artists {
                    let names = name_list_of_artists(artists);
                    let v = visible_indices(&names, &self.search_filter);
                    Self::pick_row(&v, self.library.selected_artist, row, height)
                } else {
                    None
                };
                self.browser_focus = column;
                match k {
                    Some(k) => self.click_browser_artist(k),
                    None => Vec::new(),
                }
            },
            BrowserColumn::Albums => {
                let k = {
                    let artist = match self.library.current_artist() {
                        Some(a) => a,
                        None => {
                            self.browser_focus = column;
                            return Vec::new();
                        },
                    };
                    if let Some(LoadingState::Loaded(albums)) = self.library.albums.get(
                        artist.id.as_str(),
                    ) {
                        let names = name_list_of_albums(albums);
                        let v = visible_indices(&names, &self.search_filter);
                        Self::pick_row(&v, self.library.selected_album, row, height)
                    } else {
                        None
                    }
                };
                self.browser_focus = column;
                match k {
                    Some(k) => self.click_browser_album(k),
                    None => Vec::new(),
                }
            },
            BrowserColumn::Tracks => {
                let k = {
                    let album = match self.library.current_album() {
                        Some(a) => a,
                        None => {
                            self.browser_focus = column;
                            return Vec::new();
                        },
                    };
                    if let Some(LoadingState::Loaded(songs)) = self.library.tracks.get(
                        album.id.as_str(),
                    ) {
                        let names = title_list_of_songs(songs);
                        let v = visible_indices(&names, &self.search_filter);
                        Self::pick_row(&v, self.library.selected_track, row, height)
                    } else {
                        None
                    }
                };
                self.browser_focus = column;
                if let Some(k) = k {
                    self.click_browser_track(k);
                }
                Vec::new()
            },
        }
    }

    /// Handles a left click at `(x, y)` on a screen of size `area`.
    pub fn handle_mouse_click(&mut self, x: u16, y: u16, area: Rect) -> (out: MouseOutcome)
        requires
            old(self).wf(),
        ensures
            final(self).wf(),
            mouse_post(*old(self), *final(self), out, click_target(*old(self), x, y, area)),
    {
        let t = self.click_target_of(x, y, area);
        match t {
            ClickTarget::Nothing => MouseOutcome::Done(Vec::new()),
            ClickTarget::Control(act) => MouseOutcome::Done(self.dispatch(act)),
            ClickTarget::Seek { offset, width, total_secs } => MouseOutcome::Seek {
                offset,
                width,
                total_secs,
            },
            ClickTarget::BrowserRow { column, row, height } => MouseOutcome::Done(
                self.browser_click(column, row, height),
            ),
            ClickTarget::QueueRow(row) => {
                if let Some(i) = self.queue.scroll.checked_add(row) {
                    self.set_queue_cursor(i);
                }
                MouseOutcome::Done(Vec::new())
            },
        }
    }

    /// Clicking an artist row: select it and request its albums.
    pub fn click_browser_artist(&mut self, orig_idx: usize) -> (e: Vec<Effect>)
        requires
            old(self).wf(),
        ensures
            final(self).wf(),
            click_artist_post(*old(self), *final(self), e@, orig_idx),
    {
        let id = if let LoadingState::Loaded(artists) = &self.library.artists {
            if orig_idx >= artists.len() {
                return Vec::new();
            }
            artists[orig_idx].id.clone()
        } else {
            return Vec::new();
        };
        self.library.selected_artist = Some(orig_idx);
        self.library.selected_album = Some(0);
        self.library.selected_track = Some(0);
        self.request_albums(id)
    }

    /// Clicking an album row: select it and request its tracks.
    pub fn click_browser_album(&mut self, orig_idx: usize) -> (e: Vec<Effect>)
        requires
            old(self).wf(),
        ensures
            final(self).wf(),
            click_album_post(*old(self), *final(self), e@, orig_idx),
    {
        let id = {
            let artist = match self.library.current_artist() {
                Some(a) => a,
                None => return Vec::new(),
            };
            let albums = match self.library.albums.get(artist.id.as_str()) {
                Some(LoadingState::Loaded(a)) => a,
                _ => return Vec::new(),
            };
            if orig_idx >= albums.len() {
                return Vec::new();
            }
            albums[orig_idx].id.clone()
        };
        self.library.selected_album = Some(orig_idx);
        self.library.selected_track = Some(0);
        self.request_tracks(id)
    }

    /// Clicking a track row: select it.
    pub fn click_browser_track(&mut self, orig_idx: usize)
        requires
            old(self).wf(),
        ensures
            final(self).wf(),
            *final(self) == click_track_spec(*old(self), orig_idx),
    {
        let valid = {
            let album = match self.library.current_album() {
                Some(a) => a,
                None => return,
            };
            match self.library.tracks.get(album.id.as_str()) {
                Some(LoadingState::Loaded(songs)) => orig_idx < songs.len(),
                _ => false,
            }
        };
        if valid {
            self.library.selected_track = Some(orig_idx);
        }
    }

    /// Clicking a queue row: move the cursor (and scroll) there when it is in range.
    pub fn set_queue_cursor(&mut self, idx: usize)
        requires
            old(self).wf(),
        ensures
            final(self).wf(),
            *final(self) == queue_cursor_spec(*old(self), idx),
    {
        if idx < self.queue.songs.len() {
            self.queue.cursor = idx;
            self.queue.scroll = idx;
        }
    }

} // impl App

/// How long the event loop waits for input before the next frame, in milliseconds: 33
/// while the accent colour is in transition, so that it animates smoothly, else 50.
pub fn frame_poll_ms(accent_transition_active: bool) -> (ms: u64)
    ensures
        ms == (if accent_transition_active {
            33u64
        } else {
            50u64
        }),
{
    if accent_transition_active {
        33
    } else {
        50
    }
}

/// How long an error message stays in the status bar, in milliseconds.
pub const STATUS_FLASH_MS: u64 = 3000;

/// Whether an error message shown for `shown_ms` milliseconds has had its time.
pub fn flash_expired(shown_ms: u64) -> (b: bool)
    ensures
        b == (shown_ms > STATUS_FLASH_MS),
{
    shown_ms > STATUS_FLASH_MS
}

} // verus!
