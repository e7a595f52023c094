//! Browser selection state, lazily loaded library data and the play queue.
use vstd::prelude::*;

use crate::models::{clone_songs, Album, Artist, Song};

verus! {

// ── LoadingState ──────────────────────────────────────────────────────────────

/// Lifecycle of a lazily fetched piece of library data.
pub enum LoadingState<T> {
    NotLoaded,
    Loading,
    Loaded(T),
    Error(String),
}

impl<T> LoadingState<T> {
    /// The initial state: nothing requested yet.
    pub fn default_state() -> (r: Self)
        ensures
            r is NotLoaded,
    {
        LoadingState::NotLoaded
    }
}

// ── IdMap ─────────────────────────────────────────────────────────────────────

/// A small map keyed by Subsonic ids (strings), kept as a list of distinct keys.
pub struct IdMap<V> {
    entries: Vec<(String, V)>,
}

/// The map that a list of `(key, value)` entries denotes, later entries winning.
pub open spec fn map_of<V>(s: Seq<(String, V)>) -> Map<Seq<char>, V>
    decreases s.len(),
{
    if s.len() == 0 {
        Map::empty()
    } else {
        map_of(s.drop_last()).insert(s.last().0@, s.last().1)
    }
}

/// No key occurs twice.
pub open spec fn distinct_keys<V>(s: Seq<(String, V)>) -> bool {
    forall|i: int, j: int| 0 <= i < j < s.len() ==> (#[trigger] s[i]).0@ != (#[trigger] s[j]).0@
}

pub proof fn lemma_map_of<V>(s: Seq<(String, V)>)
    requires
        distinct_keys(s),
    ensures
        forall|k: Seq<char>|
            #[trigger] map_of(s).dom().contains(k) <==> exists|i: int| 0 <= i < s.len() && s[i].0@ == k,
        forall|i: int| 0 <= i < s.len() ==> #[trigger] map_of(s)[s[i].0@] == s[i].1,
    decreases s.len(),
{
    if s.len() > 0 {
        let p = s.drop_last();
        assert(distinct_keys(p));
        lemma_map_of(p);
        assert forall|k: Seq<char>| #[trigger]
            map_of(s).dom().contains(k) <==> exists|i: int| 0 <= i < s.len() && s[i].0@ == k by {
            if map_of(s).dom().contains(k) && k != s.last().0@ {
                assert(map_of(p).dom().contains(k));
                let i = choose|i: int| 0 <= i < p.len() && p[i].0@ == k;
                assert(s[i] == p[i]);
            }
            if map_of(s).dom().contains(k) && k == s.last().0@ {
                assert(s[s.len() - 1].0@ == k);
            }
            if exists|i: int| 0 <= i < s.len() && s[i].0@ == k {
                let i = choose|i: int| 0 <= i < s.len() && s[i].0@ == k;
                if i < s.len() - 1 {
                    assert(p[i] == s[i]);
                    assert(map_of(p).dom().contains(k));
                }
            }
        }
        assert forall|i: int| 0 <= i < s.len() implies #[trigger] map_of(s)[s[i].0@] == s[i].1 by {
            if i < s.len() - 1 {
                assert(p[i] == s[i]);
                assert(s[i].0@ != s[s.len() - 1].0@);
                assert(map_of(p)[p[i].0@] == p[i].1);
            }
        }
    }
}

impl<V> IdMap<V> {
    /// The keys are distinct.
    pub closed spec fn wf(&self) -> bool {
        distinct_keys(self.entries@)
    }

    /// The map from key (as characters) to value.
    pub closed spec fn view(&self) -> Map<Seq<char>, V> {
        map_of(self.entries@)
    }

    /// An empty map.
    pub fn new() -> (m: Self)
        ensures
            m.wf(),
            m.view() == Map::<Seq<char>, V>::empty(),
    {
        IdMap { entries: Vec::new() }
    }

    fn index_of(&self, key: &str) -> (r: Option<usize>)
        requires
            self.wf(),
        ensures
            match r {
                Some(i) => i < self.entries@.len() && self.entries@[i as int].0@ == key@,
                None => forall|i: int|
                    0 <= i < self.entries@.len() ==> (#[trigger] self.entries@[i]).0@ != key@,
            },
    {
        let mut i: usize = 0;
        while i < self.entries.len()
            invariant
                i <= self.entries@.len(),
                forall|j: int| 0 <= j < i ==> (#[trigger] self.entries@[j]).0@ != key@,
            decreases self.entries.len() - i,
        {
            if crate::text::str_eq(self.entries[i].0.as_str(), key) {
                return Some(i);
            }
            i = i + 1;
        }
        None
    }

    /// Whether `key` is present.
    pub fn contains_key(&self, key: &str) -> (b: bool)
        requires
            self.wf(),
        ensures
            b == self.view().dom().contains(key@),
    {
        proof {
            lemma_map_of(self.entries@);
        }
        self.index_of(key).is_some()
    }

    /// The value stored under `key`, if any.
    pub fn get(&self, key: &str) -> (r: Option<&V>)
        requires
            self.wf(),
        ensures
            r.is_some() == self.view().dom().contains(key@),
            r.is_some() ==> *r.unwrap() == self.view()[key@],
    {
        proof {
            lemma_map_of(self.entries@);
        }
        match self.index_of(key) {
            Some(i) => Some(&self.entries[i].1),
            None => None,
        }
    }

    /// Stores `value` under `key`, replacing any previous value.
    pub fn insert(&mut self, key: String, value: V)
        requires
            old(self).wf(),
        ensures
            final(self).wf(),
            final(self).view() == old(self).view().insert(key@, value),
    {
        proof {
            lemma_map_of(self.entries@);
        }
        let ghost k = key@;
        match self.index_of(key.as_str()) {
            Some(i) => {
                let ghost old_e = self.entries@;
                self.entries.set(i, (key, value));
                proof {
                    let e = self.entries@;
                    assert(e == old_e.update(i as int, e[i as int]));
                    assert(distinct_keys(e)) by {
                        assert forall|a: int, b: int| 0 <= a < b < e.len() implies (#[trigger] e[a]).0@
                            != (#[trigger] e[b]).0@ by {
                            if a != i && b != i {
                                assert(e[a] == old_e[a] && e[b] == old_e[b]);
                            } else if a == i {
                                assert(e[b] == old_e[b]);
                                assert(old_e[a].0@ != old_e[b].0@);
                            } else {
                                assert(e[a] == old_e[a]);
                                assert(old_e[a].0@ != old_e[b].0@);
                            }
                        }
                    }
                    lemma_map_of(e);
                    assert(map_of(e) =~= map_of(old_e).insert(k, e[i as int].1)) by {
                        assert forall|x: Seq<char>| #[trigger] map_of(e).dom().contains(x)
                            == map_of(old_e).insert(k, e[i as int].1).dom().contains(x) by {
                            if exists|j: int| 0 <= j < e.len() && e[j].0@ == x {
                                let j = choose|j: int| 0 <= j < e.len() && e[j].0@ == x;
                                if j != i {
                                    assert(old_e[j] == e[j]);
                                }
                            }
                            if exists|j: int| 0 <= j < old_e.len() && old_e[j].0@ == x {
                                let j = choose|j: int| 0 <= j < old_e.len() && old_e[j].0@ == x;
                                if j != i {
                                    assert(old_e[j] == e[j]);
                                } else {
                                    assert(e[i as int].0@ == x);
                                }
                            }
                        }
                        assert forall|x: Seq<char>| #[trigger] map_of(e).dom().contains(x) implies map_of(
                            e,
                        )[x] == map_of(old_e).insert(k, e[i as int].1)[x] by {
                            let j = choose|j: int| 0 <= j < e.len() && e[j].0@ == x;
                            if j != i {
                                assert(old_e[j] == e[j]);
                            }
                        }
                    }
                }
            },
            None => {
                self.entries.push((key, value));
                proof {
                    let e = self.entries@;
                    assert(e.drop_last() == old(self).entries@);
                    assert(distinct_keys(e)) by {
                        assert forall|a: int, b: int| 0 <= a < b < e.len() implies (#[trigger] e[a]).0@
                            != (#[trigger] e[b]).0@ by {
                            if b < e.len() - 1 {
                                assert(e[a] == old(self).entries@[a] && e[b] == old(
                                    self,
                                ).entries@[b]);
                            } else {
                                assert(e[a] == old(self).entries@[a]);
                            }
                        }
                    }
                }
            },
        }
    }
}

// ── LibraryState ──────────────────────────────────────────────────────────────

/// Per-pane selection and lazy-loaded data cache for the library browser.
pub struct LibraryState {
    pub artists: LoadingState<Vec<Artist>>,
    pub selected_artist: Option<usize>,
    /// Albums keyed by artist id.
    pub albums: IdMap<LoadingState<Vec<Album>>>,
    pub selected_album: Option<usize>,
    /// Songs keyed by album id.
    pub tracks: IdMap<LoadingState<Vec<Song>>>,
    pub selected_track: Option<usize>,
}

/// The selected entry of a loaded list: `Some(items[i])` when loaded and `i` is in range.
pub open spec fn selected_of<T>(list: LoadingState<Vec<T>>, sel: Option<usize>) -> Option<T> {
    match list {
        LoadingState::Loaded(items) => match sel {
            Some(i) => if i < items.len() {
                Some(items@[i as int])
            } else {
                None
            },
            None => None,
        },
        _ => None,
    }
}

impl LibraryState {
    /// The maps are well formed.
    pub open spec fn wf(&self) -> bool {
        self.albums.wf() && self.tracks.wf()
    }

    /// An empty browser: nothing loaded, nothing selected.
    pub fn new() -> (s: Self)
        ensures
            s.wf(),
            s.artists is NotLoaded,
            s.selected_artist.is_none(),
            s.selected_album.is_none(),
            s.selected_track.is_none(),
            s.albums.view() == Map::<Seq<char>, LoadingState<Vec<Album>>>::empty(),
            s.tracks.view() == Map::<Seq<char>, LoadingState<Vec<Song>>>::empty(),
    {
        LibraryState {
            artists: LoadingState::NotLoaded,
            selected_artist: None,
            albums: IdMap::new(),
            selected_album: None,
            tracks: IdMap::new(),
            selected_track: None,
        }
    }

    /// The highlighted artist, when the artist list is loaded and the selection is in range.
    pub open spec fn artist_spec(&self) -> Option<Artist> {
        selected_of(self.artists, self.selected_artist)
    }

    /// The highlighted album of the highlighted artist, when loaded.
    pub open spec fn album_spec(&self) -> Option<Album> {
        match self.artist_spec() {
            Some(a) => if self.albums.view().dom().contains(a.id@) {
                selected_of(self.albums.view()[a.id@], self.selected_album)
            } else {
                None
            },
            None => None,
        }
    }

    /// The highlighted track of the highlighted album, when loaded.
    pub open spec fn track_spec(&self) -> Option<Song> {
        match self.album_spec() {
            Some(a) => if self.tracks.view().dom().contains(a.id@) {
                selected_of(self.tracks.view()[a.id@], self.selected_track)
            } else {
                None
            },
            None => None,
        }
    }

    /// The artist currently highlighted, if the artist list is loaded.
    pub fn current_artist(&self) -> (r: Option<&Artist>)
        ensures
            r.is_some() == self.artist_spec().is_some(),
            r.is_some() ==> *r.unwrap() == self.artist_spec().unwrap(),
    {
        if let LoadingState::Loaded(artists) = &self.artists {
            match self.selected_artist {
                Some(i) => if i < artists.len() {
                    Some(&artists[i])
                } else {
                    None
                },
                None => None,
            }
        } else {
            None
        }
    }

    /// The album currently highlighted for the selected artist, if loaded.
    pub fn current_album(&self) -> (r: Option<&Album>)
        requires
            self.wf(),
        ensures
            r.is_some() == self.album_spec().is_some(),
            r.is_some() ==> *r.unwrap() == self.album_spec().unwrap(),
    {
        let artist = self.current_artist()?;
        if let Some(LoadingState::Loaded(albums)) = self.albums.get(artist.id.as_str()) {
            match self.selected_album {
                Some(i) => if i < albums.len() {
                    Some(&albums[i])
                } else {
                    None
                },
                None => None,
            }
        } else {
            None
        }
    }

    /// The track currently highlighted for the selected album, if loaded.
    pub fn current_track(&self) -> (r: Option<&Song>)
        requires
            self.wf(),
        ensures
            r.is_some() == self.track_spec().is_some(),
            r.is_some() ==> *r.unwrap() == self.track_spec().unwrap(),
    {
        let album = self.current_album()?;
        if let Some(LoadingState::Loaded(songs)) = self.tracks.get(album.id.as_str()) {
            match self.selected_track {
                Some(i) => if i < songs.len() {
                    Some(&songs[i])
                } else {
                    None
                },
                None => None,
            }
        } else {
            None
        }
    }
}

// ── QueueState ────────────────────────────────────────────────────────────────

/// The play queue.
pub struct QueueState {
    pub songs: Vec<Song>,
    /// Index of the currently playing (or next-to-play) song.
    pub cursor: usize,
    /// Offset for list rendering (scroll).
    pub scroll: usize,
    /// The order the songs were added in, kept by `push` across shuffles so that
    /// unshuffling restores it; `None` = no unshuffle available.
    pub pre_shuffle_order: Option<Vec<Song>>,
}

impl QueueState {
    /// An empty queue.
    pub fn new() -> (q: Self)
        ensures
            q.songs@.len() == 0,
            q.cursor == 0,
            q.scroll == 0,
            q.pre_shuffle_order.is_none(),
    {
        QueueState { songs: Vec::new(), cursor: 0, scroll: 0, pre_shuffle_order: None }
    }

    /// Appends a song at the end of the queue, and to the order songs were added in.
    pub fn push(&mut self, song: Song)
        ensures
            final(self).songs@ == old(self).songs@.push(song),
            final(self).cursor == old(self).cursor,
            final(self).scroll == old(self).scroll,
            final(self).pre_shuffle_order is Some,
            add_order(*final(self)) == add_order(*old(self)).push(song),
    {
        let mut order = match self.pre_shuffle_order.take() {
            Some(v) => v,
            None => clone_songs(&self.songs),
        };
        order.push(song.clone());
        self.pre_shuffle_order = Some(order);
        self.songs.push(song);
    }

    /// The song under the cursor, if the cursor is in range.
    pub open spec fn current_spec(&self) -> Option<Song> {
        if self.cursor < self.songs@.len() {
            Some(self.songs@[self.cursor as int])
        } else {
            None
        }
    }

    /// The song under the cursor.
    pub fn current(&self) -> (r: Option<&Song>)
        ensures
            r.is_some() == self.current_spec().is_some(),
            r.is_some() ==> *r.unwrap() == self.current_spec().unwrap(),
    {
        if self.cursor < self.songs.len() {
            Some(&self.songs[self.cursor])
        } else {
            None
        }
    }

    /// Advance to the next song. Returns true if there is a next song.
    pub fn next(&mut self) -> (moved: bool)
        requires
            old(self).cursor < usize::MAX,
        ensures
            moved == (old(self).cursor + 1 < old(self).songs@.len()),
            final(self).cursor == if moved {
                (old(self).cursor + 1) as usize
            } else {
                old(self).cursor
            },
            final(self).songs == old(self).songs,
            final(self).scroll == old(self).scroll,
            final(self).pre_shuffle_order == old(self).pre_shuffle_order,
            *final(self) == after_next(*old(self)),
    {
        if self.cursor + 1 < self.songs.len() {
            self.cursor += 1;
            true
        } else {
            false
        }
    }

    /// Peek at the next song without advancing the cursor.
    pub fn peek_next(&self) -> (r: Option<&Song>)
        requires
            self.cursor < usize::MAX,
        ensures
            r.is_some() == (self.cursor + 1 < self.songs@.len()),
            r.is_some() ==> *r.unwrap() == self.songs@[self.cursor + 1],
    {
        if self.cursor + 1 < self.songs.len() {
            Some(&self.songs[self.cursor + 1])
        } else {
            None
        }
    }

    /// Move to the previous song. Returns true if there is a previous song.
    pub fn prev(&mut self) -> (moved: bool)
        ensures
            moved == (old(self).cursor > 0),
            final(self).cursor == if moved {
                (old(self).cursor - 1) as usize
            } else {
                old(self).cursor
            },
            final(self).songs == old(self).songs,
            final(self).scroll == old(self).scroll,
            final(self).pre_shuffle_order == old(self).pre_shuffle_order,
            *final(self) == after_prev(*old(self)),
    {
        if self.cursor > 0 {
            self.cursor -= 1;
            true
        } else {
            false
        }
    }
}

/// The order songs were added to the queue in, which unshuffling restores: the recorded
/// order, or the queue itself while nothing recorded one.
pub open spec fn add_order(q: QueueState) -> Seq<Song> {
    match q.pre_shuffle_order {
        Some(v) => v@,
        None => q.songs@,
    }
}

/// The queue after `next`: the cursor one song further on, when there is a next song.
pub open spec fn after_next(q: QueueState) -> QueueState {
    if q.cursor + 1 < q.songs@.len() {
        QueueState { cursor: (q.cursor + 1) as usize, ..q }
    } else {
        q
    }
}

/// The queue after `prev`: the cursor one song back, when it is not on the first.
pub open spec fn after_prev(q: QueueState) -> QueueState {
    if q.cursor > 0 {
        QueueState { cursor: (q.cursor - 1) as usize, ..q }
    } else {
        q
    }
}

/// A step back undoes a successful step forward: after a `next` that moved, `prev`
/// moves too and gives back the queue as it was.
pub proof fn law_prev_undoes_next(q: QueueState)
    requires
        q.cursor + 1 < q.songs@.len(),
    ensures
        after_next(q).cursor > 0,
        after_prev(after_next(q)) == q,
{
    assert(q.songs.len() == q.songs@.len());
}

// ── PlaybackState ─────────────────────────────────────────────────────────────

/// What the audio engine is doing, as far as the interface knows.
pub struct PlaybackState {
    pub current_song: Option<Song>,
    /// Elapsed time of the current track, in milliseconds.
    pub elapsed_ms: u64,
    /// Total duration of the current track in milliseconds, when known.
    pub total_ms: Option<u64>,
    pub paused: bool,
    /// Whether the engine has been handed a track in this session.
    pub player_loaded: bool,
}

impl PlaybackState {
    /// Nothing playing.
    pub fn new() -> (p: Self)
        ensures
            p.current_song.is_none(),
            p.elapsed_ms == 0,
            p.total_ms.is_none(),
            !p.paused,
            !p.player_loaded,
    {
        PlaybackState {
            current_song: None,
            elapsed_ms: 0,
            total_ms: None,
            paused: false,
            player_loaded: false,
        }
    }
}

} // verus!
