//! Offline track cache: an index of downloaded tracks with least-recently-played
//! eviction under a size limit.
//!
//! The files themselves and the JSON index on disk are written by the caller; this
//! module keeps the index and decides which files to drop.
use vstd::prelude::*;
use crate::state::{distinct_keys, lemma_map_of, map_of};
use crate::subsonic::SubsonicClient;
use crate::text::{path_join, path_join_spec, push_str, str_eq};

verus! {

/// One entry of the cache index.
pub struct CacheEntry {
    /// Path of the cached file.
    pub path: String,
    /// Size of the cached file in bytes.
    pub size_bytes: u64,
    /// Unix time (seconds) of the last play; the oldest go first.
    pub last_played: u64,
    /// Album of the track.
    pub album_id: String,
}

impl Clone for CacheEntry {
    fn clone(&self) -> (r: Self)
        ensures
            r == *self,
    {
        CacheEntry {
            path: self.path.clone(),
            size_bytes: self.size_bytes,
            last_played: self.last_played,
            album_id: self.album_id.clone(),
        }
    }
}

/// The cache index.
pub struct TrackCache {
    /// `(song_id, entry)`, song ids distinct.
    entries: Vec<(String, CacheEntry)>,
    /// Directory of the cached files.
    tracks_dir: String,
    /// Path of the JSON index.
    index_path: String,
    /// Eviction threshold in bytes.
    max_size_bytes: u64,
    /// False when caching is off or the cache directory is unusable.
    enabled: bool,
}

/// Total size of the entries of a list.
pub open spec fn total_of(s: Seq<(String, CacheEntry)>) -> int
    decreases s.len(),
{
    if s.len() == 0 {
        0
    } else {
        total_of(s.drop_last()) + s.last().1.size_bytes
    }
}

/// The total is at most `len * u64::MAX`.
proof fn lemma_total_bound(s: Seq<(String, CacheEntry)>)
    ensures
        0 <= total_of(s) <= s.len() * 0xffff_ffff_ffff_ffff,
    decreases s.len(),
{
    if s.len() > 0 {
        lemma_total_bound(s.drop_last());
    }
}

/// Removing an entry takes its size off the total.
proof fn lemma_total_remove(s: Seq<(String, CacheEntry)>, i: int)
    requires
        0 <= i < s.len(),
    ensures
        total_of(s.remove(i)) == total_of(s) - s[i].1.size_bytes,
    decreases s.len(),
{
    if i < s.len() - 1 {
        let p = s.drop_last();
        lemma_total_remove(p, i);
        assert(s.remove(i).drop_last() == p.remove(i));
        assert(s.remove(i).last() == s.last());
    } else {
        assert(s.remove(i) == s.drop_last());
    }
}

/// Removing an entry of a list with distinct keys removes its key from the map.
proof fn lemma_map_remove(s: Seq<(String, CacheEntry)>, i: int)
    requires
        distinct_keys(s),
        0 <= i < s.len(),
    ensures
        distinct_keys(s.remove(i)),
        map_of(s.remove(i)) == map_of(s).remove(s[i].0@),
{
    let t = s.remove(i);
    assert(distinct_keys(t)) by {
        assert forall|a: int, b: int| 0 <= a < b < t.len() implies (#[trigger] t[a]).0@ != (
        #[trigger] t[b]).0@ by {
            let oa = if a < i { a } else { a + 1 };
            let ob = if b < i { b } else { b + 1 };
            assert(t[a] == s[oa] && t[b] == s[ob]);
        }
    }
    lemma_map_of(s);
    lemma_map_of(t);
    let k = s[i].0@;
    assert forall|x: Seq<char>| #[trigger] map_of(t).dom().contains(x) == map_of(s).remove(k).dom().contains(x) by {
        if map_of(t).dom().contains(x) {
            let j = choose|j: int| 0 <= j < t.len() && t[j].0@ == x;
            let oj = if j < i { j } else { j + 1 };
            assert(t[j] == s[oj]);
            assert(oj != i);
        }
        if map_of(s).remove(k).dom().contains(x) {
            let j = choose|j: int| 0 <= j < s.len() && s[j].0@ == x;
            assert(j != i);
            let tj = if j < i { j } else { j - 1 };
            assert(t[tj] == s[j]);
        }
    }
    assert forall|x: Seq<char>| #[trigger] map_of(t).dom().contains(x) implies map_of(t)[x] == map_of(
        s,
    ).remove(k)[x] by {
        let j = choose|j: int| 0 <= j < t.len() && t[j].0@ == x;
        let oj = if j < i { j } else { j + 1 };
        assert(t[j] == s[oj]);
        assert(map_of(t)[t[j].0@] == t[j].1);
        assert(map_of(s)[s[oj].0@] == s[oj].1);
    }
    assert(map_of(t) =~= map_of(s).remove(k));
}

/// `after` is what least-recently-played eviction leaves of `before` under `limit`, the
/// totals being those of the two indexes: within the limit nothing goes; above it, entries
/// go oldest first (none kept was played before one evicted), and eviction stops once the
/// total is within the limit (putting back the last one evicted would exceed it again).
pub open spec fn lru_evicted(
    before: Map<Seq<char>, CacheEntry>,
    before_total: int,
    after: Map<Seq<char>, CacheEntry>,
    after_total: int,
    limit: int,
) -> bool {
    &&& after.submap_of(before)
    &&& before_total <= limit ==> after == before
    &&& after_total <= limit
    &&& forall|a: Seq<char>, b: Seq<char>|
        #![trigger before[a], after[b]]
        before.dom().contains(a) && !after.dom().contains(a) && after.dom().contains(b)
            ==> before[a].last_played <= after[b].last_played
    &&& before_total > limit ==> exists|a: Seq<char>|
        #![trigger before[a]]
        {
            &&& before.dom().contains(a)
            &&& !after.dom().contains(a)
            &&& after_total + before[a].size_bytes > limit
            &&& forall|b: Seq<char>|
                #![trigger before[b]]
                before.dom().contains(b) && !after.dom().contains(b) ==> before[b].last_played
                    <= before[a].last_played
        }
}

/// `ks` lists the keys evicted from `before` to leave `after`, each once, oldest first,
/// and `paths` the paths of their files in the same order.
pub open spec fn evicted_keys(
    before: Map<Seq<char>, CacheEntry>,
    after: Map<Seq<char>, CacheEntry>,
    paths: Seq<String>,
    ks: Seq<Seq<char>>,
) -> bool {
    &&& ks.len() == paths.len()
    &&& ks.no_duplicates()
    &&& forall|k: int|
        #![trigger ks[k]]
        0 <= k < ks.len() ==> before.dom().contains(ks[k]) && !after.dom().contains(ks[k])
            && paths[k] == before[ks[k]].path
    &&& forall|a: Seq<char>|
        #![trigger before.dom().contains(a)]
        before.dom().contains(a) && !after.dom().contains(a) ==> ks.contains(a)
    &&& forall|i: int, j: int|
        0 <= i < j < ks.len() ==> before[#[trigger] ks[i]].last_played <= before[#[trigger] ks[j]].last_played
}

/// `paths` are the files of the entries evicted from `before` to leave `after`, oldest
/// first.
pub open spec fn evicted_oldest_first(
    before: Map<Seq<char>, CacheEntry>,
    after: Map<Seq<char>, CacheEntry>,
    paths: Seq<String>,
) -> bool {
    exists|ks: Seq<Seq<char>>| #[trigger] evicted_keys(before, after, paths, ks)
}

/// `e` is the entry stored for `song_id`: its file at `song_id.cache` in `dir`,
/// `size_bytes` long, of album `album_id`, played at `now`.
pub open spec fn fresh_entry(
    e: CacheEntry,
    dir: Seq<char>,
    song_id: Seq<char>,
    album_id: Seq<char>,
    size_bytes: u64,
    now: u64,
) -> bool {
    &&& e.path@ == path_join_spec(dir, song_id + ".cache"@)
    &&& e.album_id@ == album_id
    &&& e.size_bytes == size_bytes
    &&& e.last_played == now
}

/// `after` is `before` with a fresh entry for `song_id` stored in place of any earlier
/// one, then evicted down to the limit as `lru_evicted` says, `evicted` holding the files
/// that went, oldest first.
pub open spec fn stored(
    before: TrackCache,
    after: TrackCache,
    song_id: Seq<char>,
    album_id: Seq<char>,
    size_bytes: u64,
    now: u64,
    evicted: Seq<String>,
) -> bool {
    exists|e: CacheEntry|
        #[trigger] fresh_entry(e, before.dir(), song_id, album_id, size_bytes, now)
            && evicted_oldest_first(before.view().insert(song_id, e), after.view(), evicted)
            && lru_evicted(
            before.view().insert(song_id, e),
            before.total() - (if before.view().dom().contains(song_id) {
                before.view()[song_id].size_bytes as int
            } else {
                0
            }) + size_bytes,
            after.view(),
            after.total(),
            before.limit() as int,
        )
}

/// `stored`, at some time of the clock.
pub open spec fn stored_at_some_time(
    before: TrackCache,
    after: TrackCache,
    song_id: Seq<char>,
    album_id: Seq<char>,
    size_bytes: u64,
    evicted: Seq<String>,
) -> bool {
    exists|now: u64| #[trigger] stored(before, after, song_id, album_id, size_bytes, now, evicted)
}

/// `before` with `song_id`'s entry marked as played at `now`.
pub open spec fn touched(before: Map<Seq<char>, CacheEntry>, song_id: Seq<char>, now: u64) -> Map<
    Seq<char>,
    CacheEntry,
> {
    before.insert(song_id, CacheEntry { last_played: now, ..before[song_id] })
}

/// The base cache directory: `$XDG_CACHE_HOME/playterm`, else `$HOME/.cache/playterm`.
pub open spec fn cache_dir_spec(xdg: Option<String>, home: Option<String>) -> Option<Seq<char>> {
    match xdg {
        Some(x) => Some(path_join_spec(x@, "playterm"@)),
        None => match home {
            Some(h) => Some(path_join_spec(path_join_spec(h@, ".cache"@), "playterm"@)),
            None => None,
        },
    }
}

/// The cache directory from the values of `XDG_CACHE_HOME` and `HOME`.
pub fn playterm_cache_dir(xdg: Option<String>, home: Option<String>) -> (r: Option<String>)
    ensures
        r.is_some() == cache_dir_spec(xdg, home).is_some(),
        r.is_some() ==> r.unwrap()@ == cache_dir_spec(xdg, home).unwrap(),
{
    match xdg {
        Some(x) => Some(path_join(x.as_str(), "playterm")),
        None => match home {
            Some(h) => {
                let c = path_join(h.as_str(), ".cache");
                Some(path_join(c.as_str(), "playterm"))
            },
            None => None,
        },
    }
}

/// Seconds since the Unix epoch (0 when the clock stands before it).
pub fn unix_now() -> u64 {
    crate::clock::unix_now()
}

/// `Path::exists`: whether a file is present at `path`. What comes back depends on the
/// disk at the moment of the call, so nothing is stated of it.
#[verifier::external_body]
fn file_exists(path: &str) -> bool {
    std::path::Path::new(path).exists()
}

impl TrackCache {
    /// The index has distinct song ids.
    pub closed spec fn wf(&self) -> bool {
        distinct_keys(self.entries@)
    }

    /// The index as a map from song id to entry.
    pub closed spec fn view(&self) -> Map<Seq<char>, CacheEntry> {
        map_of(self.entries@)
    }

    /// Total size of the indexed files.
    pub closed spec fn total(&self) -> int {
        total_of(self.entries@)
    }

    /// Path of the index file.
    pub closed spec fn index_file(&self) -> Seq<char> {
        self.index_path@
    }

    /// Whether the cache stores anything.
    pub closed spec fn active(&self) -> bool {
        self.enabled
    }

    /// Whether the cache stores anything.
    pub fn enabled(&self) -> (b: bool)
        ensures
            b == self.active(),
    {
        self.enabled
    }

    /// The size limit.
    pub closed spec fn limit(&self) -> u64 {
        self.max_size_bytes
    }

    /// Directory of the cached files.
    pub closed spec fn dir(&self) -> Seq<char> {
        self.tracks_dir@
    }

    /// A cache that stores nothing.
    pub fn disabled(max_size_bytes: u64) -> (c: Self)
        ensures
            c.wf(),
            !c.active(),
            c.view() == Map::<Seq<char>, CacheEntry>::empty(),
            c.limit() == max_size_bytes,
    {
        let c = TrackCache {
            entries: Vec::new(),
            tracks_dir: String::new(),
            index_path: String::new(),
            max_size_bytes,
            enabled: false,
        };
        assert(c.view() =~= Map::empty());
        c
    }

    /// A cache rooted at `base` (`base/tracks` for the files, `base/cache.json` for the
    /// index) holding the entries read from the index; a disabled cache starts empty.
    pub fn from_index(base: &str, enabled: bool, max_size_bytes: u64, loaded: Vec<(String, CacheEntry)>) -> (c:
        Self)
        ensures
            c.wf(),
            c.active() == enabled,
            c.limit() == max_size_bytes,
            c.dir() == path_join_spec(base@, "tracks"@),
            c.index_file() == path_join_spec(base@, "cache.json"@),
            !enabled ==> c.view() == Map::<Seq<char>, CacheEntry>::empty(),
            enabled ==> c.view() == map_of(loaded@),
    {
        let mut c = TrackCache {
            entries: Vec::new(),
            tracks_dir: path_join(base, "tracks"),
            index_path: path_join(base, "cache.json"),
            max_size_bytes,
            enabled,
        };
        assert(c.view() =~= Map::empty());
        if !enabled {
            return c;
        }
        let mut src = loaded;
        let ghost all = src@;
        let n0 = src.len();
        let mut taken: usize = 0;
        assert(all.skip(0) == all);
        while src.len() > 0
            invariant
                taken + src@.len() == all.len(),
                all.len() == n0,
                src@ == all.skip(taken as int),
                c.wf(),
                c.enabled,
                c.max_size_bytes == max_size_bytes,
                c.tracks_dir@ == path_join_spec(base@, "tracks"@),
                c.index_path@ == path_join_spec(base@, "cache.json"@),
                c.view() == map_of(all.take(taken as int)),
            decreases src.len(),
        {
            let (k, e) = src.remove(0);
            proof {
                assert(all.take(taken + 1).drop_last() == all.take(taken as int));
                assert(all.take(taken + 1).last() == all[taken as int]);
                assert(all.skip(taken + 1) == all.skip(taken as int).drop_first());
            }
            c.insert_entry(k, e);
            taken = taken + 1;
        }
        assert(all.take(all.len() as int) == all);
        c
    }

    /// Position of `song_id` in the index.
    fn find(&self, song_id: &str) -> (r: Option<usize>)
        ensures
            match r {
                Some(i) => i < self.entries@.len() && self.entries@[i as int].0@ == song_id@,
                None => forall|i: int|
                    0 <= i < self.entries@.len() ==> (#[trigger] self.entries@[i]).0@ != song_id@,
            },
    {
        let mut i: usize = 0;
        while i < self.entries.len()
            invariant
                i <= self.entries@.len(),
                forall|j: int| 0 <= j < i ==> (#[trigger] self.entries@[j]).0@ != song_id@,
            decreases self.entries.len() - i,
        {
            if str_eq(self.entries[i].0.as_str(), song_id) {
                return Some(i);
            }
            i = i + 1;
        }
        None
    }

    /// Stores an entry, replacing any previous one for the same song.
    fn insert_entry(&mut self, song_id: String, entry: CacheEntry)
        requires
            old(self).wf(),
        ensures
            final(self).wf(),
            final(self).view() == old(self).view().insert(song_id@, entry),
            final(self).total() == old(self).total() - (if old(self).view().dom().contains(song_id@) {
                old(self).view()[song_id@].size_bytes as int
            } else {
                0
            }) + entry.size_bytes,
            final(self).active() == old(self).active(),
            final(self).max_size_bytes == old(self).max_size_bytes,
            final(self).tracks_dir == old(self).tracks_dir,
            final(self).index_path == old(self).index_path,
    {
        let ghost k = song_id@;
        let ghost e0 = self.entries@;
        proof {
            lemma_map_of(e0);
        }
        match self.find(song_id.as_str()) {
            Some(i) => {
                let _ = self.entries.remove(i);
                proof {
                    lemma_map_remove(e0, i as int);
                    lemma_total_remove(e0, i as int);
                    assert(map_of(e0)[e0[i as int].0@] == e0[i as int].1);
                }
            },
            None => {
                proof {
                    assert(!map_of(e0).dom().contains(k));
                    assert(map_of(e0).remove(k) =~= map_of(e0));
                }
            },
        }
        let ghost e1 = self.entries@;
        proof {
            lemma_map_of(e1);
        }
        self.entries.push((song_id, entry));
        proof {
            let e2 = self.entries@;
            assert(e2.drop_last() == e1);
            assert(distinct_keys(e2)) by {
                assert forall|a: int, b: int| 0 <= a < b < e2.len() implies (#[trigger] e2[a]).0@
                    != (#[trigger] e2[b]).0@ by {
                    if b == e2.len() - 1 {
                        assert(e2[a] == e1[a]);
                        assert(map_of(e1).dom().contains(e1[a].0@));
                    } else {
                        assert(e2[a] == e1[a] && e2[b] == e1[b]);
                    }
                }
            }
            assert(map_of(e2) =~= map_of(e0).insert(k, entry));
        }
    }

    /// Whether `song_id` is indexed with its file present (the index is left alone): the
    /// file probed is the one at the indexed entry's path, and `cached_given` decides from
    /// the answer. Whether the file is there is read from the disk.
    pub fn get_const(&self, song_id: &str) -> (b: bool)
        requires
            self.wf(),
        ensures
            b ==> self.active() && self.view().dom().contains(song_id@),
            !self.active() || !self.view().dom().contains(song_id@) ==> !b,
    {
        match self.indexed_path(song_id) {
            Some(p) => {
                let present = file_exists(p.as_str());
                self.cached_given(song_id, present)
            },
            None => false,
        }
    }

    /// Whether `song_id` counts as cached once it is known whether its indexed file is
    /// `present` on disk: the cache is on, the song indexed and the file there.
    pub fn cached_given(&self, song_id: &str, present: bool) -> (b: bool)
        requires
            self.wf(),
        ensures
            b == (self.active() && self.view().dom().contains(song_id@) && present),
    {
        proof {
            lemma_map_of(self.entries@);
        }
        if !self.enabled || !present {
            return false;
        }
        match self.find(song_id) {
            Some(_) => true,
            None => false,
        }
    }

    /// The path of `song_id`'s cached file when it is indexed, as the index records it.
    pub fn indexed_path(&self, song_id: &str) -> (r: Option<String>)
        requires
            self.wf(),
        ensures
            match r {
                Some(p) => self.active() && self.view().dom().contains(song_id@) && p == self.view()[
                    song_id@].path,
                None => !self.active() || !self.view().dom().contains(song_id@),
            },
    {
        proof {
            lemma_map_of(self.entries@);
        }
        if !self.enabled {
            return None;
        }
        match self.find(song_id) {
            Some(i) => Some(self.entries[i].1.path.clone()),
            None => None,
        }
    }

    /// The lookup of `song_id` once it is known whether its indexed file is `present` on
    /// disk: its path when it is, else `None`, dropping the stale entry from the index.
    pub fn settle_lookup(&mut self, song_id: &str, present: bool) -> (r: Option<String>)
        requires
            old(self).wf(),
        ensures
            final(self).wf(),
            final(self).active() == old(self).active(),
            final(self).limit() == old(self).limit(),
            final(self).dir() == old(self).dir(),
            !old(self).active() || !old(self).view().dom().contains(song_id@) ==> r is None
                && final(self).view() == old(self).view(),
            old(self).active() && old(self).view().dom().contains(song_id@) ==> if present {
                r == Some(old(self).view()[song_id@].path) && final(self).view() == old(self).view()
            } else {
                r is None && final(self).view() == old(self).view().remove(song_id@)
            },
    {
        proof {
            lemma_map_of(self.entries@);
        }
        if !self.enabled {
            return None;
        }
        match self.find(song_id) {
            Some(i) => {
                if present {
                    return Some(self.entries[i].1.path.clone());
                }
                let ghost e0 = self.entries@;
                let _ = self.entries.remove(i);
                proof {
                    lemma_map_remove(e0, i as int);
                }
                None
            },
            None => None,
        }
    }

    /// The path of `song_id`'s cached file when it is indexed and present; an entry whose
    /// file has gone is dropped from the index (see `settle_lookup`; whether the file is
    /// there is read from the disk).
    pub fn get(&mut self, song_id: &str) -> (r: Option<String>)
        requires
            old(self).wf(),
        ensures
            final(self).wf(),
            final(self).active() == old(self).active(),
            final(self).limit() == old(self).limit(),
            final(self).dir() == old(self).dir(),
            match r {
                Some(p) => {
                    &&& old(self).active()
                    &&& old(self).view().dom().contains(song_id@)
                    &&& p == old(self).view()[song_id@].path
                    &&& final(self).view() == old(self).view()
                },
                None => final(self).view() == old(self).view().remove(song_id@)
                    || (!old(self).active() && final(self).view() == old(self).view()),
            },
    {
        match self.indexed_path(song_id) {
            Some(p) => {
                let present = file_exists(p.as_str());
                self.settle_lookup(song_id, present)
            },
            None => {
                assert(!self.active() || self.view().remove(song_id@) =~= self.view());
                None
            },
        }
    }

    /// Where `song_id`'s file is stored: `tracks_dir/<song_id>.cache`.
    pub fn file_path(&self, song_id: &str) -> (p: String)
        ensures
            p@ == path_join_spec(self.dir(), song_id@ + ".cache"@),
    {
        let mut name = String::new();
        push_str(&mut name, song_id);
        push_str(&mut name, ".cache");
        path_join(self.tracks_dir.as_str(), name.as_str())
    }

    /// The index file's path.
    pub fn index_path(&self) -> (p: &String)
        ensures
            p@ == self.index_file(),
    {
        &self.index_path
    }

    /// The index entries, for writing the index file.
    pub fn index_entries(&self) -> (r: Vec<(String, CacheEntry)>)
        ensures
            map_of(r@) == self.view(),
    {
        let mut r: Vec<(String, CacheEntry)> = Vec::new();
        let mut i: usize = 0;
        while i < self.entries.len()
            invariant
                i <= self.entries@.len(),
                r@ == self.entries@.take(i as int),
            decreases self.entries.len() - i,
        {
            r.push((self.entries[i].0.clone(), self.entries[i].1.clone()));
            i = i + 1;
        }
        assert(self.entries@.take(self.entries@.len() as int) == self.entries@);
        r
    }

    /// Records that `song_id` was played at `now` (Unix seconds, the LRU clock); `true`
    /// when an entry changed and the index should be written.
    pub fn touch_at(&mut self, song_id: &str, now: u64) -> (changed: bool)
        requires
            old(self).wf(),
        ensures
            final(self).wf(),
            final(self).active() == old(self).active(),
            final(self).limit() == old(self).limit(),
            final(self).dir() == old(self).dir(),
            changed == (old(self).active() && old(self).view().dom().contains(song_id@)),
            changed ==> final(self).view() == touched(old(self).view(), song_id@, now),
            !changed ==> final(self).view() == old(self).view(),
    {
        proof {
            lemma_map_of(self.entries@);
        }
        if !self.enabled {
            return false;
        }
        match self.find(song_id) {
            Some(i) => {
                let mut e = self.entries[i].1.clone();
                let k = self.entries[i].0.clone();
                e.last_played = now;
                let ghost old_e = self.entries@;
                proof {
                    assert(old_e[i as int].0@ == song_id@);
                    assert(map_of(old_e)[old_e[i as int].0@] == old_e[i as int].1);
                }
                self.insert_entry(k, e);
                true
            },
            None => false,
        }
    }

    /// Records that `song_id` was just played, at the clock's current time (see
    /// `touch_at`).
    pub fn touch(&mut self, song_id: &str) -> (changed: bool)
        requires
            old(self).wf(),
        ensures
            final(self).wf(),
            final(self).active() == old(self).active(),
            final(self).limit() == old(self).limit(),
            final(self).dir() == old(self).dir(),
            changed == (old(self).active() && old(self).view().dom().contains(song_id@)),
            changed ==> final(self).view() == touched(
                old(self).view(),
                song_id@,
                final(self).view()[song_id@].last_played,
            ),
            !changed ==> final(self).view() == old(self).view(),
    {
        let now = unix_now();
        self.touch_at(song_id, now)
    }

    /// Adds `song_id`'s freshly written file (`size_bytes` long, at `file_path(song_id)`)
    /// to the index, stamped `now` (Unix seconds), then evicts down to the limit as
    /// `evict_to_limit` does; returns the paths of the evicted files, oldest first. A
    /// disabled cache does nothing.
    pub fn put_at(&mut self, song_id: &str, album_id: &str, size_bytes: u64, now: u64) -> (evicted: Vec<String>)
        requires
            old(self).wf(),
        ensures
            final(self).wf(),
            final(self).active() == old(self).active(),
            final(self).limit() == old(self).limit(),
            final(self).dir() == old(self).dir(),
            !old(self).active() ==> final(self).view() == old(self).view() && evicted@.len() == 0,
            old(self).active() ==> stored(
                *old(self),
                *final(self),
                song_id@,
                album_id@,
                size_bytes,
                now,
                evicted@,
            ),
    {
        if !self.enabled {
            return Vec::new();
        }
        let path = self.file_path(song_id);
        let mut id = String::new();
        push_str(&mut id, song_id);
        let mut al = String::new();
        push_str(&mut al, album_id);
        let entry = CacheEntry { path, size_bytes, last_played: now, album_id: al };
        let ghost before = *self;
        self.insert_entry(id, entry);
        let evicted = self.evict_to_limit();
        proof {
            assert(fresh_entry(entry, before.dir(), song_id@, album_id@, size_bytes, now));
        }
        evicted
    }

    /// Adds `song_id`'s freshly written file to the index, stamped with the clock's current
    /// time (see `put_at`).
    pub fn put(&mut self, song_id: &str, album_id: &str, size_bytes: u64) -> (evicted: Vec<String>)
        requires
            old(self).wf(),
        ensures
            final(self).wf(),
            final(self).active() == old(self).active(),
            final(self).limit() == old(self).limit(),
            final(self).dir() == old(self).dir(),
            !old(self).active() ==> final(self).view() == old(self).view() && evicted@.len() == 0,
            old(self).active() ==> stored_at_some_time(
                *old(self),
                *final(self),
                song_id@,
                album_id@,
                size_bytes,
                evicted@,
            ),
    {
        let now = unix_now();
        let evicted = self.put_at(song_id, album_id, size_bytes, now);
        assert(old(self).active() ==> stored(*old(self), *self, song_id@, album_id@, size_bytes, now, evicted@));
        assert(old(self).active() ==> stored_at_some_time(*old(self), *self, song_id@, album_id@, size_bytes, evicted@));
        evicted
    }

    /// Evicts the least recently played entries until the total size is within the
    /// limit; returns the paths of the evicted files, oldest first.
    pub fn evict_to_limit(&mut self) -> (evicted: Vec<String>)
        requires
            old(self).wf(),
        ensures
            final(self).wf(),
            final(self).active() == old(self).active(),
            final(self).limit() == old(self).limit(),
            final(self).dir() == old(self).dir(),
            !old(self).active() || old(self).total() <= old(self).limit() ==> final(self).view()
                == old(self).view() && evicted@.len() == 0,
            !old(self).active() ==> final(self).total() == old(self).total(),
            old(self).active() ==> lru_evicted(
                old(self).view(),
                old(self).total(),
                final(self).view(),
                final(self).total(),
                old(self).limit() as int,
            ),
            evicted_oldest_first(old(self).view(), final(self).view(), evicted@),
    {
        proof {
            lemma_map_of(self.entries@);
            lemma_total_bound(self.entries@);
        }
        let mut evicted: Vec<String> = Vec::new();
        assert(evicted_keys(self.view(), self.view(), evicted@, Seq::empty()));
        if !self.enabled {
            return evicted;
        }
        let mut remaining: u128 = 0;
        let n = self.entries.len();
        let mut i: usize = 0;
        while i < self.entries.len()
            invariant
                i <= self.entries@.len(),
                remaining == total_of(self.entries@.take(i as int)),
                self.entries@.len() <= usize::MAX,
            decreases self.entries.len() - i,
        {
            proof {
                let t = self.entries@.take(i + 1);
                assert(t.drop_last() == self.entries@.take(i as int));
                lemma_total_bound(t);
                assert(i + 1 <= 0xffff_ffff_ffff_ffffu64);
            }
            remaining = remaining + self.entries[i].1.size_bytes as u128;
            i = i + 1;
        }
        assert(self.entries@.take(self.entries@.len() as int) == self.entries@);
        if remaining <= self.max_size_bytes as u128 {
            return evicted;
        }
        let ghost e0 = self.entries@;
        let ghost floor: int = 0;
        let ghost last: Seq<char> = Seq::empty();
        let ghost any: bool = false;
        let ghost gone: Seq<Seq<char>> = Seq::empty();
        while remaining > self.max_size_bytes as u128 && self.entries.len() > 0
            invariant
                self.wf(),
                self.enabled,
                self.max_size_bytes == old(self).max_size_bytes,
                self.tracks_dir == old(self).tracks_dir,
                self.index_path == old(self).index_path,
                remaining == total_of(self.entries@),
                map_of(e0) == old(self).view(),
                map_of(self.entries@).submap_of(map_of(e0)),
                forall|a: Seq<char>|
                    #![trigger map_of(e0)[a]]
                    map_of(e0).dom().contains(a) && !map_of(self.entries@).dom().contains(a)
                        ==> map_of(e0)[a].last_played <= floor,
                forall|k: int|
                    0 <= k < self.entries@.len() ==> floor <= (#[trigger] self.entries@[k]).1.last_played,
                total_of(e0) > self.max_size_bytes,
                !any ==> self.entries@ == e0,
                any ==> {
                    &&& map_of(e0).dom().contains(last)
                    &&& !map_of(self.entries@).dom().contains(last)
                    &&& map_of(e0)[last].last_played == floor
                    &&& remaining + map_of(e0)[last].size_bytes > self.max_size_bytes
                },
                evicted_keys(map_of(e0), map_of(self.entries@), evicted@, gone),
                forall|k: int| 0 <= k < gone.len() ==> map_of(e0)[#[trigger] gone[k]].last_played <= floor,
            decreases self.entries.len(),
        {
            let mut best: usize = 0;
            let mut j: usize = 1;
            while j < self.entries.len()
                invariant
                    0 < self.entries@.len(),
                    best < self.entries@.len(),
                    1 <= j <= self.entries@.len(),
                    forall|k: int|
                        0 <= k < j ==> self.entries@[best as int].1.last_played
                            <= self.entries@[k].1.last_played,
                decreases self.entries.len() - j,
            {
                if self.entries[j].1.last_played < self.entries[best].1.last_played {
                    best = j;
                }
                j = j + 1;
            }
            let ghost s0 = self.entries@;
            proof {
                assert(map_of(s0).submap_of(map_of(e0)));
                lemma_map_of(s0);
                lemma_map_remove(s0, best as int);
                lemma_total_remove(s0, best as int);
            }
            let (_, e) = self.entries.remove(best);
            proof {
                lemma_total_bound(self.entries@);
                floor = e.last_played as int;
                last = s0[best as int].0@;
                any = true;
                assert(map_of(s0)[last] == e);
                assert(map_of(s0).dom().contains(last));
                assert(map_of(e0).dom().contains(last));
                assert(map_of(s0)[last] == map_of(e0)[last]);
                lemma_map_of(self.entries@);
                assert forall|k: int| 0 <= k < self.entries@.len() implies floor <= (
                #[trigger] self.entries@[k]).1.last_played by {
                    let ok = if k < best { k } else { k + 1 };
                    assert(self.entries@[k] == s0[ok]);
                }
            }
            remaining = remaining - e.size_bytes as u128;
            let ghost ev0 = evicted@;
            let ghost g0 = gone;
            let ghost m1 = map_of(self.entries@);
            evicted.push(e.path);
            proof {
                gone = gone.push(last);
                assert(!g0.contains(last));
                assert forall|k: int| 0 <= k < gone.len() implies map_of(e0).dom().contains(#[trigger] gone[k])
                    && !m1.dom().contains(gone[k]) && evicted@[k] == map_of(e0)[gone[k]].path by {
                    if k < g0.len() {
                        assert(gone[k] == g0[k]);
                        assert(evicted@[k] == ev0[k]);
                    }
                }
                assert forall|a: Seq<char>| #![trigger map_of(e0).dom().contains(a)]
                    map_of(e0).dom().contains(a) && !m1.dom().contains(a) implies gone.contains(a) by {
                    if a == last {
                        assert(gone[gone.len() - 1] == last);
                    } else {
                        assert(m1 == map_of(s0).remove(last));
                        assert(!map_of(s0).dom().contains(a));
                        assert(evicted_keys(map_of(e0), map_of(s0), ev0, g0));
                        assert(g0.contains(a));
                        let k = g0.index_of(a);
                        assert(gone[k] == a);
                    }
                }
                assert forall|i: int, j: int| 0 <= i < j < gone.len() implies map_of(e0)[#[trigger] gone[i]].last_played
                    <= map_of(e0)[#[trigger] gone[j]].last_played by {
                    if j < g0.len() {
                        assert(gone[i] == g0[i] && gone[j] == g0[j]);
                    } else {
                        assert(gone[i] == g0[i]);
                    }
                }
                assert(evicted_keys(map_of(e0), m1, evicted@, gone));
            }
        }
        proof {
            lemma_map_of(self.entries@);
            assert forall|a: Seq<char>, b: Seq<char>|
                #![trigger old(self).view()[a], self.view()[b]]
                old(self).view().dom().contains(a) && !self.view().dom().contains(a)
                    && self.view().dom().contains(b) implies old(self).view()[a].last_played
                    <= self.view()[b].last_played by {
                let k = choose|k: int| 0 <= k < self.entries@.len() && self.entries@[k].0@ == b;
                assert(map_of(self.entries@)[self.entries@[k].0@] == self.entries@[k].1);
                assert(map_of(e0)[a].last_played <= floor);
            }
            assert(any);
            assert(old(self).view()[last].last_played == floor);
            assert(evicted_keys(old(self).view(), self.view(), evicted@, gone));
        }
        evicted
    }
}


/// Where a song is played from.
pub enum StreamSource {
    /// The cached file at this path, to be served locally.
    Cached(String),
    /// The server's stream URL.
    Remote(String),
}

/// Where to play `song_id` from: with the offline cache on, a cached file that is still
/// present (its entry is touched, as a play); otherwise the server's stream URL, signed
/// with a fresh salt.
pub fn resolve_stream_source(
    cache: &mut TrackCache,
    client: &SubsonicClient,
    cache_enabled: bool,
    song_id: &str,
    max_bit_rate: u32,
) -> (r: StreamSource)
    requires
        old(cache).wf(),
    ensures
        final(cache).wf(),
        final(cache).active() == old(cache).active(),
        final(cache).limit() == old(cache).limit(),
        final(cache).dir() == old(cache).dir(),
        !cache_enabled ==> r is Remote && final(cache).view() == old(cache).view(),
        match r {
            StreamSource::Cached(p) => {
                &&& cache_enabled
                &&& old(cache).active()
                &&& old(cache).view().dom().contains(song_id@)
                &&& p@ == old(cache).view()[song_id@].path@
                &&& final(cache).view().dom() == old(cache).view().dom()
                &&& final(cache).view() == old(cache).view().insert(
                    song_id@,
                    CacheEntry {
                        last_played: final(cache).view()[song_id@].last_played,
                        ..old(cache).view()[song_id@]
                    },
                )
            },
            StreamSource::Remote(u) => {
                &&& exists|salt: Seq<char>|
                    crate::subsonic::valid_salt(salt) && #[trigger] client.stream_spec(
                        song_id@,
                        max_bit_rate,
                        salt,
                    ) == u@
                &&& (final(cache).view() == old(cache).view() || final(cache).view() == old(
                    cache,
                ).view().remove(song_id@))
            },
        },
{
    if cache_enabled {
        if let Some(path) = cache.get(song_id) {
            let _ = cache.touch(song_id);
            return StreamSource::Cached(path);
        }
    }
    StreamSource::Remote(client.stream_url(song_id, max_bit_rate))
}

} // verus!
