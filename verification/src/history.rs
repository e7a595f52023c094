//! Play history: what was played and when, and the summaries drawn from it
//! (recently played albums, most played artists, artists worth rediscovering).
use vstd::prelude::*;
use crate::text::{path_join, path_join_spec, str_eq};
use rand::seq::SliceRandom;

verus! {

// ── Records ───────────────────────────────────────────────────────────────────

/// One play of one track.
pub struct PlayRecord {
    pub song_id: String,
    pub album_id: String,
    pub artist_id: String,
    pub artist_name: String,
    pub album_name: String,
    pub track_name: String,
    /// Unix timestamp in seconds.
    pub played_at: i64,
    pub duration_secs: u64,
}

impl Clone for PlayRecord {
    fn clone(&self) -> (r: Self)
        ensures
            r == *self,
    {
        PlayRecord {
            song_id: self.song_id.clone(),
            album_id: self.album_id.clone(),
            artist_id: self.artist_id.clone(),
            artist_name: self.artist_name.clone(),
            album_name: self.album_name.clone(),
            track_name: self.track_name.clone(),
            played_at: self.played_at,
            duration_secs: self.duration_secs,
        }
    }
}

impl PlayRecord {
    /// The current Unix time in seconds (0 when the clock stands before the epoch).
    pub fn now_secs() -> (r: i64)
        ensures
            r >= 0,
    {
        let s = crate::clock::unix_now();
        if s > 0x7fff_ffff_ffff_ffffu64 {
            0x7fff_ffff_ffff_ffffi64
        } else {
            s as i64
        }
    }
}

/// The most records the history keeps.
pub const MAX_RECORDS: usize = 10_000;

/// Every play, oldest first.
pub struct PlayHistory {
    pub records: Vec<PlayRecord>,
}

/// A list of records cut to its newest `MAX_RECORDS`.
pub open spec fn capped(s: Seq<PlayRecord>) -> Seq<PlayRecord> {
    if s.len() > MAX_RECORDS {
        s.skip(s.len() - MAX_RECORDS)
    } else {
        s
    }
}

/// Recording a play never lets the history grow past `MAX_RECORDS`, and the newest
/// record is always the one just played.
pub proof fn law_history_capped(s: Seq<PlayRecord>, r: PlayRecord)
    ensures
        capped(s.push(r)).len() <= MAX_RECORDS,
        capped(s.push(r)).last() == r,
        s.len() < MAX_RECORDS ==> capped(s.push(r)) == s.push(r),
{
}

// ── Recently played albums ────────────────────────────────────────────────────

/// `(album_id, album_name, artist_name)` of a record.
pub open spec fn album_triple(r: PlayRecord) -> (Seq<char>, Seq<char>, Seq<char>) {
    (r.album_id@, r.album_name@, r.artist_name@)
}

/// Walking `rs` from the newest record back, the album of each record whose album id is
/// neither in `seen` nor met before.
pub open spec fn recent_from(rs: Seq<PlayRecord>, seen: Seq<Seq<char>>) -> Seq<
    (Seq<char>, Seq<char>, Seq<char>),
>
    decreases rs.len(),
{
    if rs.len() == 0 {
        seq![]
    } else {
        let r = rs.last();
        if seen.contains(r.album_id@) {
            recent_from(rs.drop_last(), seen)
        } else {
            seq![album_triple(r)] + recent_from(rs.drop_last(), seen.push(r.album_id@))
        }
    }
}

/// The `n` most recently played albums (all of them when fewer were played).
pub open spec fn recent_albums_spec(rs: Seq<PlayRecord>, n: nat) -> Seq<
    (Seq<char>, Seq<char>, Seq<char>),
> {
    let f = recent_from(rs, seq![]);
    if f.len() <= n {
        f
    } else {
        f.take(n as int)
    }
}

/// The characters of string triples.
pub open spec fn triple_views(v: Seq<(String, String, String)>) -> Seq<
    (Seq<char>, Seq<char>, Seq<char>),
> {
    Seq::new(v.len(), |i: int| (v[i].0@, v[i].1@, v[i].2@))
}

/// The first components of string triples.
pub open spec fn first_views(v: Seq<(String, String, String)>) -> Seq<Seq<char>> {
    Seq::new(v.len(), |i: int| v[i].0@)
}

/// The albums found walking back from the newest record never repeat, and none of them
/// was already seen.
pub proof fn lemma_recent_distinct(rs: Seq<PlayRecord>, seen: Seq<Seq<char>>)
    ensures
        forall|i: int, j: int|
            0 <= i < j < recent_from(rs, seen).len() ==> (#[trigger] recent_from(rs, seen)[i]).0
                != (#[trigger] recent_from(rs, seen)[j]).0,
        forall|i: int|
            0 <= i < recent_from(rs, seen).len() ==> !seen.contains(
                (#[trigger] recent_from(rs, seen)[i]).0,
            ),
    decreases rs.len(),
{
    if rs.len() > 0 {
        let r = rs.last();
        let p = rs.drop_last();
        if seen.contains(r.album_id@) {
            lemma_recent_distinct(p, seen);
            assert(recent_from(rs, seen) == recent_from(p, seen));
        } else {
            let s2 = seen.push(r.album_id@);
            lemma_recent_distinct(p, s2);
            let t = recent_from(p, s2);
            let f = recent_from(rs, seen);
            assert(f == seq![album_triple(r)] + t);
            assert forall|i: int| 0 <= i < f.len() implies !seen.contains(#[trigger] f[i].0) by {
                if i > 0 {
                    assert(f[i] == t[i - 1]);
                    if seen.contains(f[i].0) {
                        let k = seen.index_of(f[i].0);
                        assert(s2[k] == f[i].0);
                    }
                }
            }
            assert forall|i: int, j: int| 0 <= i < j < f.len() implies (#[trigger] f[i]).0 != (
            #[trigger] f[j]).0 by {
                assert(f[j] == t[j - 1]);
                if i == 0 {
                    assert(s2[s2.len() - 1] == r.album_id@);
                } else {
                    assert(f[i] == t[i - 1]);
                }
            }
        }
    }
}

/// Recently played albums never repeat.
pub proof fn law_recent_albums_distinct(rs: Seq<PlayRecord>, n: nat)
    ensures
        forall|i: int, j: int|
            0 <= i < j < recent_albums_spec(rs, n).len() ==> (#[trigger] recent_albums_spec(
                rs,
                n,
            )[i]).0 != (#[trigger] recent_albums_spec(rs, n)[j]).0,
        recent_albums_spec(rs, n).len() <= n,
{
    lemma_recent_distinct(rs, seq![]);
    let f = recent_from(rs, seq![]);
    let r = recent_albums_spec(rs, n);
    assert forall|i: int, j: int| 0 <= i < j < r.len() implies (#[trigger] r[i]).0 != (
    #[trigger] r[j]).0 by {
        assert(r[i] == f[i] && r[j] == f[j]);
    }
}

/// Whether one of `v`'s first components equals `id`.
fn has_first(v: &Vec<(String, String, String)>, id: &str) -> (b: bool)
    ensures
        b == first_views(v@).contains(id@),
{
    let mut i: usize = 0;
    while i < v.len()
        invariant
            i <= v@.len(),
            forall|j: int| 0 <= j < i ==> first_views(v@)[j] != id@,
        decreases v.len() - i,
    {
        if str_eq(v[i].0.as_str(), id) {
            assert(first_views(v@)[i as int] == id@);
            return true;
        }
        i = i + 1;
    }
    false
}

// ── Per-artist statistics ─────────────────────────────────────────────────────

/// Number of plays of artist `id`.
pub open spec fn artist_count(rs: Seq<PlayRecord>, id: Seq<char>) -> nat
    decreases rs.len(),
{
    if rs.len() == 0 {
        0
    } else {
        artist_count(rs.drop_last(), id) + if rs.last().artist_id@ == id {
            1nat
        } else {
            0nat
        }
    }
}

/// The artist name carried by the first play of artist `id`.
pub open spec fn first_artist_name(rs: Seq<PlayRecord>, id: Seq<char>) -> Seq<char>
    decreases rs.len(),
{
    if rs.len() == 0 {
        seq![]
    } else if artist_count(rs.drop_last(), id) > 0 {
        first_artist_name(rs.drop_last(), id)
    } else if rs.last().artist_id@ == id {
        rs.last().artist_name@
    } else {
        seq![]
    }
}

/// The latest play time of artist `id` (meaningful when it was played).
pub open spec fn last_played(rs: Seq<PlayRecord>, id: Seq<char>) -> int
    decreases rs.len(),
{
    if rs.len() == 0 {
        0
    } else {
        let p = last_played(rs.drop_last(), id);
        if rs.last().artist_id@ == id && (artist_count(rs.drop_last(), id) == 0 || p
            < rs.last().played_at) {
            rs.last().played_at as int
        } else {
            p
        }
    }
}

/// The artist ids played, in order of their first play.
pub open spec fn artist_ids(rs: Seq<PlayRecord>) -> Seq<Seq<char>>
    decreases rs.len(),
{
    if rs.len() == 0 {
        seq![]
    } else {
        let p = artist_ids(rs.drop_last());
        if artist_count(rs.drop_last(), rs.last().artist_id@) > 0 {
            p
        } else {
            p.push(rs.last().artist_id@)
        }
    }
}

/// A play count never exceeds the number of records.
pub proof fn lemma_count_bound(rs: Seq<PlayRecord>, id: Seq<char>)
    ensures
        artist_count(rs, id) <= rs.len(),
    decreases rs.len(),
{
    if rs.len() > 0 {
        lemma_count_bound(rs.drop_last(), id);
    }
}

/// The played artist ids are distinct and are exactly those with a play.
pub proof fn lemma_artist_ids(rs: Seq<PlayRecord>)
    ensures
        forall|id: Seq<char>| artist_ids(rs).contains(id) <==> artist_count(rs, id) > 0,
        forall|i: int, j: int|
            0 <= i < j < artist_ids(rs).len() ==> artist_ids(rs)[i] != artist_ids(rs)[j],
    decreases rs.len(),
{
    if rs.len() > 0 {
        let p = rs.drop_last();
        lemma_artist_ids(p);
        let x = rs.last().artist_id@;
        assert forall|id: Seq<char>| artist_ids(rs).contains(id) <==> artist_count(rs, id) > 0 by {
            if artist_count(p, x) == 0 && id == x {
                assert(artist_ids(rs)[artist_ids(rs).len() - 1] == x);
            }
            if artist_ids(rs).contains(id) && !artist_ids(p).contains(id) {
                let k = artist_ids(rs).index_of(id);
                if k < artist_ids(p).len() {
                    assert(artist_ids(p)[k] == id);
                }
            }
            if artist_ids(p).contains(id) {
                let k = artist_ids(p).index_of(id);
                assert(artist_ids(rs)[k] == id);
            }
        }
        if artist_count(p, x) == 0 {
            assert(!artist_ids(p).contains(x));
            assert forall|i: int, j: int| 0 <= i < j < artist_ids(rs).len() implies artist_ids(rs)[i]
                != artist_ids(rs)[j] by {
                if j == artist_ids(p).len() {
                    assert(artist_ids(rs)[i] == artist_ids(p)[i]);
                }
            }
        }
    }
}

/// What the statistics record of one artist says.
pub struct ArtistStat {
    pub id: String,
    pub name: String,
    pub count: u64,
    pub last: i64,
}

/// `st` is the statistics record of artist `st.id` over `rs`.
pub open spec fn stat_of(rs: Seq<PlayRecord>, st: ArtistStat) -> bool {
    &&& st.name@ == first_artist_name(rs, st.id@)
    &&& st.count == artist_count(rs, st.id@)
    &&& st.last == last_played(rs, st.id@)
}

/// The ids of statistics records.
pub open spec fn stat_ids(v: Seq<ArtistStat>) -> Seq<Seq<char>> {
    Seq::new(v.len(), |i: int| v[i].id@)
}

/// `(artist_id, artist_name, play_count)` entries.
pub open spec fn count_views(v: Seq<(String, String, u64)>) -> Seq<(Seq<char>, Seq<char>, nat)> {
    Seq::new(v.len(), |i: int| (v[i].0@, v[i].1@, v[i].2 as nat))
}

/// The top-artists list for limit `n`: played artists with their first name and play
/// count, most played first, as many as the limit allows, and no left-out artist played
/// more than the last one listed.
pub open spec fn top_artists_post(rs: Seq<PlayRecord>, n: nat, r: Seq<(Seq<char>, Seq<char>, nat)>) -> bool {
    let ids = artist_ids(rs);
    &&& r.len() == (if n < ids.len() {
        n
    } else {
        ids.len()
    })
    &&& forall|k: int|
        0 <= k < r.len() ==> ids.contains((#[trigger] r[k]).0) && r[k].1 == first_artist_name(
            rs,
            r[k].0,
        ) && r[k].2 == artist_count(rs, r[k].0)
    &&& forall|i: int, j: int| 0 <= i < j < r.len() ==> (#[trigger] r[i]).2 >= (#[trigger] r[j]).2
    &&& forall|i: int, j: int| 0 <= i < j < r.len() ==> (#[trigger] r[i]).0 != (#[trigger] r[j]).0
    &&& forall|id: Seq<char>|
        #![trigger ids.contains(id)]
        ids.contains(id) && r.len() > 0 && !(exists|k: int| 0 <= k < r.len() && r[k].0 == id)
            ==> artist_count(rs, id) <= r.last().2
}

/// Index of the statistics record of `id`, if any.
fn find_stat(v: &Vec<ArtistStat>, id: &str) -> (r: Option<usize>)
    ensures
        match r {
            Some(k) => k < v@.len() && v@[k as int].id@ == id@,
            None => !stat_ids(v@).contains(id@),
        },
{
    let mut i: usize = 0;
    while i < v.len()
        invariant
            i <= v@.len(),
            forall|j: int| 0 <= j < i ==> stat_ids(v@)[j] != id@,
        decreases v.len() - i,
    {
        if str_eq(v[i].id.as_str(), id) {
            return Some(i);
        }
        i = i + 1;
    }
    None
}

impl PlayHistory {
    /// An empty history.
    pub fn new() -> (h: Self)
        ensures
            h.records@.len() == 0,
    {
        PlayHistory { records: Vec::new() }
    }

    /// Appends a play, dropping the oldest records beyond `MAX_RECORDS`.
    pub fn record_play(&mut self, record: PlayRecord)
        ensures
            final(self).records@ == capped(old(self).records@.push(record)),
    {
        self.records.push(record);
        if self.records.len() > MAX_RECORDS {
            let excess = self.records.len() - MAX_RECORDS;
            let mut kept: Vec<PlayRecord> = Vec::new();
            let mut i = excess;
            while i < self.records.len()
                invariant
                    excess <= i <= self.records@.len(),
                    kept@ == self.records@.subrange(excess as int, i as int),
                decreases self.records.len() - i,
            {
                kept.push(self.records[i].clone());
                i = i + 1;
            }
            self.records = kept;
        }
    }

    /// `(album_id, album_name, artist_name)` of the most recently played distinct
    /// albums, newest first, at most `n` of them.
    pub fn recent_albums(&self, n: usize) -> (r: Vec<(String, String, String)>)
        ensures
            triple_views(r@) == recent_albums_spec(self.records@, n as nat),
    {
        let ghost rs = self.records@;
        let ghost full = recent_from(rs, seq![]);
        let mut result: Vec<(String, String, String)> = Vec::new();
        if n == 0 {
            assert(full.take(0) == Seq::<(Seq<char>, Seq<char>, Seq<char>)>::empty());
            assert(triple_views(result@) == Seq::<(Seq<char>, Seq<char>, Seq<char>)>::empty());
            return result;
        }
        let mut i = self.records.len();
        assert(rs.take(i as int) == rs);
        assert(first_views(result@) == Seq::<Seq<char>>::empty());
        assert(triple_views(result@) + full == full);
        while i > 0
            invariant
                i <= rs.len(),
                rs == self.records@,
                full == recent_from(rs, seq![]),
                triple_views(result@) + recent_from(rs.take(i as int), first_views(result@))
                    == full,
                result@.len() < n,
            decreases i,
        {
            let ghost t = rs.take(i as int);
            assert(t.drop_last() == rs.take(i - 1));
            assert(t.last() == rs[i - 1]);
            let rec = &self.records[i - 1];
            if !has_first(&result, rec.album_id.as_str()) {
                let ghost old_res = result@;
                result.push((rec.album_id.clone(), rec.album_name.clone(), rec.artist_name.clone()));
                proof {
                    assert(first_views(result@) == first_views(old_res).push(rec.album_id@));
                    assert(triple_views(result@) == triple_views(old_res).push(album_triple(*rec)));
                    let rest = recent_from(rs.take(i - 1), first_views(result@));
                    assert(recent_from(t, first_views(old_res)) == seq![album_triple(*rec)] + rest);
                    assert(triple_views(result@) + rest == triple_views(old_res) + (seq![
                        album_triple(*rec),
                    ] + rest));
                }
                if result.len() >= n {
                    proof {
                        let k = result@.len();
                        assert(full.take(k as int) == triple_views(result@));
                    }
                    return result;
                }
            }
            i = i - 1;
        }
        proof {
            assert(rs.take(0) == Seq::<PlayRecord>::empty());
            assert(triple_views(result@) == full);
        }
        result
    }
}

impl PlayHistory {
    /// Per-artist statistics, in order of first play.
    pub fn artist_stats(&self) -> (r: Vec<ArtistStat>)
        ensures
            stat_ids(r@) == artist_ids(self.records@),
            forall|k: int| 0 <= k < r@.len() ==> stat_of(self.records@, #[trigger] r@[k]),
    {
        let ghost rs = self.records@;
        let mut v: Vec<ArtistStat> = Vec::new();
        let mut i: usize = 0;
        assert(stat_ids(v@) == artist_ids(rs.take(0)));
        while i < self.records.len()
            invariant
                i <= rs.len(),
                rs == self.records@,
                stat_ids(v@) == artist_ids(rs.take(i as int)),
                forall|k: int| 0 <= k < v@.len() ==> stat_of(rs.take(i as int), #[trigger] v@[k]),
            decreases self.records.len() - i,
        {
            let ghost t = rs.take(i + 1);
            let ghost p = rs.take(i as int);
            assert(t.drop_last() == p);
            let rec = &self.records[i];
            proof {
                lemma_artist_ids(p);
                lemma_count_bound(p, rec.artist_id@);
            }
            let ghost old_v = v@;
            match find_stat(&v, rec.artist_id.as_str()) {
                Some(k) => {
                    assert(stat_ids(v@)[k as int] == rec.artist_id@);
                    assert(artist_ids(p)[k as int] == rec.artist_id@);
                    assert(artist_ids(p).contains(rec.artist_id@));
                    assert(artist_count(p, rec.artist_id@) > 0);
                    let cur = &v[k];
                    let last = if cur.last < rec.played_at {
                        rec.played_at
                    } else {
                        cur.last
                    };
                    let st = ArtistStat {
                        id: cur.id.clone(),
                        name: cur.name.clone(),
                        count: cur.count + 1,
                        last,
                    };
                    v.set(k, st);
                    proof {
                        assert(stat_ids(v@) == stat_ids(old_v));
                        assert forall|j: int| 0 <= j < v@.len() implies stat_of(
                            t,
                            #[trigger] v@[j],
                        ) by {
                            assert(stat_of(p, old_v[j]));
                            if j != k {
                                assert(stat_ids(old_v)[j] != stat_ids(old_v)[k as int]);
                                assert(artist_count(p, old_v[j].id@) > 0) by {
                                    assert(artist_ids(p).contains(stat_ids(old_v)[j]));
                                }
                            }
                        }
                    }
                },
                None => {
                    assert(artist_count(p, rec.artist_id@) == 0);
                    v.push(
                        ArtistStat {
                            id: rec.artist_id.clone(),
                            name: rec.artist_name.clone(),
                            count: 1,
                            last: rec.played_at,
                        },
                    );
                    proof {
                        assert(stat_ids(v@) == stat_ids(old_v).push(rec.artist_id@));
                        assert forall|j: int| 0 <= j < v@.len() implies stat_of(
                            t,
                            #[trigger] v@[j],
                        ) by {
                            if j < old_v.len() {
                                assert(stat_of(p, old_v[j]));
                                assert(artist_ids(p).contains(stat_ids(old_v)[j]));
                                assert(old_v[j].id@ != rec.artist_id@);
                            }
                        }
                    }
                },
            }
            i = i + 1;
        }
        assert(rs.take(rs.len() as int) == rs);
        v
    }

    /// `(artist_id, artist_name, play_count)` of the `n` most played artists, most played
    /// first.
    pub fn top_artists(&self, n: usize) -> (r: Vec<(String, String, u64)>)
        ensures
            top_artists_post(self.records@, n as nat, count_views(r@)),
    {
        let ghost rs = self.records@;
        let mut rest = self.artist_stats();
        proof {
            lemma_artist_ids(rs);
        }
        let ghost ids = artist_ids(rs);
        proof {
            assert forall|k: int| 0 <= k < rest@.len() implies ids.contains((#[trigger] rest@[k]).id@) by {
                assert(stat_ids(rest@)[k] == ids[k]);
            }
            assert forall|i: int, j: int| 0 <= i < j < rest@.len() implies (#[trigger] rest@[i]).id@
                != (#[trigger] rest@[j]).id@ by {
                assert(stat_ids(rest@)[i] == ids[i]);
                assert(stat_ids(rest@)[j] == ids[j]);
            }
            assert forall|id: Seq<char>| ids.contains(id) implies (exists|k: int|
                0 <= k < rest@.len() && rest@[k].id@ == id) by {
                let k = ids.index_of(id);
                assert(stat_ids(rest@)[k] == id);
            }
        }
        let mut result: Vec<(String, String, u64)> = Vec::new();
        while result.len() < n && rest.len() > 0
            invariant
                rs == self.records@,
                ids == artist_ids(rs),
                forall|i: int, j: int| 0 <= i < j < ids.len() ==> ids[i] != ids[j],
                forall|id: Seq<char>| ids.contains(id) <==> artist_count(rs, id) > 0,
                result@.len() <= n,
                result@.len() + rest@.len() == ids.len(),
                forall|k: int| 0 <= k < rest@.len() ==> stat_of(rs, #[trigger] rest@[k]),
                forall|k: int| 0 <= k < rest@.len() ==> ids.contains((#[trigger] rest@[k]).id@),
                forall|i: int, j: int|
                    0 <= i < j < rest@.len() ==> (#[trigger] rest@[i]).id@ != (#[trigger] rest@[j]).id@,
                forall|k: int|
                    #![trigger count_views(result@)[k]]
                    0 <= k < result@.len() ==> {
                        let c = count_views(result@)[k];
                        ids.contains(c.0) && c.1 == first_artist_name(rs, c.0) && c.2
                            == artist_count(rs, c.0)
                    },
                forall|i: int, j: int|
                    0 <= i < j < result@.len() ==> (#[trigger] count_views(result@)[i]).2 >= (
                    #[trigger] count_views(result@)[j]).2,
                forall|i: int, j: int|
                    0 <= i < j < result@.len() ==> (#[trigger] count_views(result@)[i]).0 != (
                    #[trigger] count_views(result@)[j]).0,
                forall|i: int, k: int|
                    0 <= i < result@.len() && 0 <= k < rest@.len() ==> (#[trigger] count_views(
                        result@,
                    )[i]).0 != (#[trigger] rest@[k]).id@ && count_views(result@)[i].2
                        >= rest@[k].count,
                forall|id: Seq<char>|
                    ids.contains(id) ==> (exists|k: int|
                        0 <= k < result@.len() && count_views(result@)[k].0 == id) || (exists|k: int|
                        0 <= k < rest@.len() && rest@[k].id@ == id),
            decreases rest.len(),
        {
            let mut best: usize = 0;
            let mut j: usize = 1;
            while j < rest.len()
                invariant
                    0 < rest@.len(),
                    best < rest@.len(),
                    1 <= j <= rest@.len(),
                    forall|k: int| 0 <= k < j ==> rest@[k].count <= rest@[best as int].count,
                decreases rest.len() - j,
            {
                if rest[j].count > rest[best].count {
                    best = j;
                }
                j = j + 1;
            }
            let ghost old_rest = rest@;
            let ghost old_res = result@;
            let st = rest.remove(best);
            result.push((st.id, st.name, st.count));
            proof {
                assert(count_views(result@) == count_views(old_res).push(
                    (old_rest[best as int].id@, old_rest[best as int].name@, old_rest[best as int].count as nat),
                ));
                assert forall|id: Seq<char>| ids.contains(id) implies (exists|k: int|
                    0 <= k < result@.len() && count_views(result@)[k].0 == id) || (exists|k: int|
                    0 <= k < rest@.len() && rest@[k].id@ == id) by {
                    if exists|k: int| 0 <= k < old_res.len() && count_views(old_res)[k].0 == id {
                        let k = choose|k: int| 0 <= k < old_res.len() && count_views(old_res)[k].0 == id;
                        assert(count_views(result@)[k] == count_views(old_res)[k]);
                    } else {
                        let k = choose|k: int| 0 <= k < old_rest.len() && old_rest[k].id@ == id;
                        if k < best {
                            assert(rest@[k] == old_rest[k]);
                        } else if k > best {
                            assert(rest@[k - 1] == old_rest[k]);
                        } else {
                            assert(count_views(result@)[old_res.len() as int].0 == id);
                        }
                    }
                }
                assert forall|i: int, k: int|
                    0 <= i < result@.len() && 0 <= k < rest@.len() implies (#[trigger] count_views(
                    result@,
                )[i]).0 != (#[trigger] rest@[k]).id@ && count_views(result@)[i].2 >= rest@[k].count by {
                    let ok = if k < best { k } else { k + 1 };
                    assert(rest@[k] == old_rest[ok]);
                    if i < old_res.len() {
                        assert(count_views(result@)[i] == count_views(old_res)[i]);
                    }
                }
                assert forall|k: int| 0 <= k < rest@.len() implies stat_of(rs, #[trigger] rest@[k]) by {
                    let ok = if k < best { k } else { k + 1 };
                    assert(rest@[k] == old_rest[ok]);
                }
                assert forall|k: int| 0 <= k < rest@.len() implies ids.contains((#[trigger] rest@[k]).id@) by {
                    let ok = if k < best { k } else { k + 1 };
                    assert(rest@[k] == old_rest[ok]);
                }
                assert forall|a: int, b: int| 0 <= a < b < rest@.len() implies (#[trigger] rest@[a]).id@
                    != (#[trigger] rest@[b]).id@ by {
                    let oa = if a < best { a } else { a + 1 };
                    let ob = if b < best { b } else { b + 1 };
                    assert(rest@[a] == old_rest[oa]);
                    assert(rest@[b] == old_rest[ob]);
                }
                assert forall|i: int, j2: int| 0 <= i < j2 < result@.len() implies (#[trigger] count_views(
                    result@,
                )[i]).0 != (#[trigger] count_views(result@)[j2]).0 by {
                    if j2 < old_res.len() {
                        assert(count_views(result@)[i] == count_views(old_res)[i]);
                        assert(count_views(result@)[j2] == count_views(old_res)[j2]);
                    } else {
                        assert(count_views(result@)[i] == count_views(old_res)[i]);
                    }
                }
                assert forall|i: int, j2: int| 0 <= i < j2 < result@.len() implies (#[trigger] count_views(
                    result@,
                )[i]).2 >= (#[trigger] count_views(result@)[j2]).2 by {
                    assert(count_views(result@)[i] == count_views(old_res)[i]);
                    if j2 < old_res.len() {
                        assert(count_views(result@)[j2] == count_views(old_res)[j2]);
                    }
                }
                assert forall|k: int| #![trigger count_views(result@)[k]] 0 <= k < result@.len() implies {
                    let c = count_views(result@)[k];
                    ids.contains(c.0) && c.1 == first_artist_name(rs, c.0) && c.2 == artist_count(rs, c.0)
                } by {
                    if k < old_res.len() {
                        assert(count_views(result@)[k] == count_views(old_res)[k]);
                    } else {
                        assert(stat_of(rs, old_rest[best as int]));
                        assert(ids.contains(old_rest[best as int].id@));
                    }
                }
            }
        }
        proof {
            let r = count_views(result@);
            assert forall|id: Seq<char>|
                #![trigger ids.contains(id)]
                ids.contains(id) && r.len() > 0 && !(exists|k: int| 0 <= k < r.len() && r[k].0 == id)
                    implies artist_count(rs, id) <= r.last().2 by {
                let k = choose|k: int| 0 <= k < rest@.len() && rest@[k].id@ == id;
                assert(stat_of(rs, rest@[k]));
                assert(r[r.len() - 1].2 >= rest@[k].count);
            }
        }
        result
    }
}

// ── Rediscovery ───────────────────────────────────────────────────────────────

/// Seconds in a day.
pub const SECS_PER_DAY: i64 = 86_400;

/// Artist `id` is due for rediscovery at `cutoff`: never played, or last played before.
pub open spec fn stale(rs: Seq<PlayRecord>, id: Seq<char>, cutoff: int) -> bool {
    artist_count(rs, id) == 0 || last_played(rs, id) < cutoff
}

/// The characters of string pairs.
pub open spec fn pair_views(v: Seq<(String, String)>) -> Seq<(Seq<char>, Seq<char>)> {
    Seq::new(v.len(), |i: int| (v[i].0@, v[i].1@))
}

/// The library artists due at `cutoff`, with their play counts, in library order.
pub open spec fn candidates(rs: Seq<PlayRecord>, lib: Seq<(Seq<char>, Seq<char>)>, cutoff: int) -> Seq<
    (Seq<char>, Seq<char>, nat),
>
    decreases lib.len(),
{
    if lib.len() == 0 {
        seq![]
    } else {
        let p = candidates(rs, lib.drop_last(), cutoff);
        let e = lib.last();
        if stale(rs, e.0, cutoff) {
            p.push((e.0, e.1, artist_count(rs, e.0)))
        } else {
            p
        }
    }
}

/// The first cutoff (14, then 7, then 3 days before `now`) that leaves `n` candidates.
pub open spec fn rediscover_cutoff(
    rs: Seq<PlayRecord>,
    lib: Seq<(Seq<char>, Seq<char>)>,
    n: nat,
    now: int,
) -> Option<int> {
    if candidates(rs, lib, now - 14 * 86400).len() >= n {
        Some(now - 14 * 86400)
    } else if candidates(rs, lib, now - 7 * 86400).len() >= n {
        Some(now - 7 * 86400)
    } else if candidates(rs, lib, now - 3 * 86400).len() >= n {
        Some(now - 3 * 86400)
    } else {
        None
    }
}

/// `r` takes `n` entries of `cs`, least played first, leaving out none played less than
/// the last one taken.
pub open spec fn least_played(cs: Seq<(Seq<char>, Seq<char>, nat)>, n: nat, r: Seq<
    (Seq<char>, Seq<char>, nat),
>) -> bool {
    &&& r.len() == n
    &&& forall|k: int| 0 <= k < r.len() ==> cs.contains(#[trigger] r[k])
    &&& forall|i: int, j: int| 0 <= i < j < r.len() ==> (#[trigger] r[i]).2 <= (#[trigger] r[j]).2
    &&& forall|x: (Seq<char>, Seq<char>, nat)|
        #![trigger cs.contains(x)]
        cs.contains(x) && r.len() > 0 && x.2 < r.last().2 ==> r.contains(x)
}

/// The artists suggested for rediscovery at time `now`: at the first cutoff that leaves
/// enough candidates, `n` of them, least played first (ties in random order); when no
/// cutoff does, `n` artists of the library at random. Either way each is drawn once: from
/// a library that lists no artist twice, no suggestion comes twice.
pub open spec fn rediscover_post(
    rs: Seq<PlayRecord>,
    lib: Seq<(Seq<char>, Seq<char>)>,
    n: nat,
    now: int,
    r: Seq<(Seq<char>, Seq<char>)>,
) -> bool {
    &&& lib.no_duplicates() ==> r.no_duplicates()
    &&& rediscover_pick(rs, lib, n, now, r)
}

/// Which artists `rediscover_post` suggests, apart from their being drawn once.
pub open spec fn rediscover_pick(
    rs: Seq<PlayRecord>,
    lib: Seq<(Seq<char>, Seq<char>)>,
    n: nat,
    now: int,
    r: Seq<(Seq<char>, Seq<char>)>,
) -> bool {
    if n == 0 || lib.len() == 0 {
        r.len() == 0
    } else {
        match rediscover_cutoff(rs, lib, n, now) {
            Some(c) => exists|t: Seq<(Seq<char>, Seq<char>, nat)>|
                least_played(candidates(rs, lib, c), n, t) && r == Seq::new(
                    t.len(),
                    |i: int| (t[i].0, t[i].1),
                ),
            None => {
                &&& r.len() == (if n < lib.len() {
                    n
                } else {
                    lib.len()
                })
                &&& forall|k: int| 0 <= k < r.len() ==> lib.contains(#[trigger] r[k])
            },
        }
    }
}

/// No two entries of `cs` share an artist and a name.
pub open spec fn pairs_distinct(cs: Seq<(Seq<char>, Seq<char>, nat)>) -> bool {
    forall|i: int, j: int|
        0 <= i < j < cs.len() ==> ((#[trigger] cs[i]).0, cs[i].1) != ((#[trigger] cs[j]).0, cs[j].1)
}

/// Each candidate is an entry of the library; with no entry listed twice, no candidate is.
proof fn lemma_candidates_from_library(rs: Seq<PlayRecord>, lib: Seq<(Seq<char>, Seq<char>)>, cutoff: int)
    ensures
        forall|k: int|
            0 <= k < candidates(rs, lib, cutoff).len() ==> lib.contains(
                ((#[trigger] candidates(rs, lib, cutoff)[k]).0, candidates(rs, lib, cutoff)[k].1),
            ),
        lib.no_duplicates() ==> pairs_distinct(candidates(rs, lib, cutoff)),
    decreases lib.len(),
{
    if lib.len() > 0 {
        let d = lib.drop_last();
        lemma_candidates_from_library(rs, d, cutoff);
        let p = candidates(rs, d, cutoff);
        let cs = candidates(rs, lib, cutoff);
        assert forall|k: int| 0 <= k < cs.len() implies lib.contains(((#[trigger] cs[k]).0, cs[k].1)) by {
            if k < p.len() {
                let x = (p[k].0, p[k].1);
                assert(d.contains(x));
                let j = d.index_of(x);
                assert(lib[j] == x);
            } else {
                assert(lib[lib.len() - 1] == (cs[k].0, cs[k].1));
            }
        }
        if lib.no_duplicates() {
            assert(d.no_duplicates());
            assert forall|i: int, j: int| 0 <= i < j < cs.len() implies ((#[trigger] cs[i]).0, cs[i].1)
                != ((#[trigger] cs[j]).0, cs[j].1) by {
                if j >= p.len() {
                    let x = (p[i].0, p[i].1);
                    assert(d.contains(x));
                    let a = d.index_of(x);
                    assert(lib[a] == x);
                    assert(lib[lib.len() - 1] == (cs[j].0, cs[j].1));
                }
            }
        }
    }
}

/// Two sequences with the same items: one has no item twice exactly when the other has not.
proof fn lemma_same_items_no_duplicates<A>(a: Seq<A>, b: Seq<A>)
    requires
        a.to_multiset() == b.to_multiset(),
        a.no_duplicates(),
    ensures
        b.no_duplicates(),
{
    a.lemma_multiset_has_no_duplicates();
    b.lemma_multiset_has_no_duplicates_conv();
}

/// `SliceRandom::shuffle` with `rand::thread_rng()`: the items are put in a random order
/// (a Fisher–Yates pass, in rand's source); what order comes out is left to chance, so
/// only that the same items remain is stated.
#[verifier::external_body]
fn shuffle_in_place<T>(v: &mut Vec<T>)
    ensures
        final(v)@.to_multiset() == old(v)@.to_multiset(),
{
    v.as_mut_slice().shuffle(&mut rand::thread_rng());
}

/// Shuffles `v`, then takes its `n` least played entries (ties in shuffled order).
fn pick_least(v: Vec<(String, String, u64)>, n: usize) -> (r: Vec<(String, String, u64)>)
    requires
        n <= v@.len(),
    ensures
        least_played(count_views(v@), n as nat, count_views(r@)),
        pairs_distinct(count_views(v@)) ==> pairs_distinct(count_views(r@)),
{
    let ghost v0 = v@;
    let mut rest = v;
    shuffle_in_place(&mut rest);
    let ghost all = rest@;
    let mut result: Vec<(String, String, u64)> = Vec::new();
    proof {
        assert(result@ + rest@ =~= rest@);
        vstd::seq_lib::lemma_multiset_commutative(result@, rest@);
        all.to_multiset_ensures();
        v0.to_multiset_ensures();
    }
    while result.len() < n
        invariant
            n <= result@.len() + rest@.len(),
            result@.len() <= n,
            result@.to_multiset().add(rest@.to_multiset()) == all.to_multiset(),
            all.to_multiset() == v0.to_multiset(),
            forall|i: int, j: int| 0 <= i < j < result@.len() ==> (#[trigger] result@[i]).2 <= (
            #[trigger] result@[j]).2,
            forall|i: int, k: int|
                0 <= i < result@.len() && 0 <= k < rest@.len() ==> (#[trigger] result@[i]).2 <= (
                #[trigger] rest@[k]).2,
        decreases n - result.len(),
    {
        let mut best: usize = 0;
        let mut j: usize = 1;
        while j < rest.len()
            invariant
                0 < rest@.len(),
                best < rest@.len(),
                1 <= j <= rest@.len(),
                forall|k: int| 0 <= k < j ==> rest@[best as int].2 <= rest@[k].2,
            decreases rest.len() - j,
        {
            if rest[j].2 < rest[best].2 {
                best = j;
            }
            j = j + 1;
        }
        let ghost old_rest = rest@;
        let ghost old_res = result@;
        let e = rest.remove(best);
        result.push(e);
        proof {
            vstd::seq_lib::to_multiset_remove(old_rest, best as int);
            vstd::seq_lib::to_multiset_build(old_res, e);
            old_rest.to_multiset_ensures();
            assert(old_rest.contains(e));
            assert(result@.to_multiset().add(rest@.to_multiset()) =~= all.to_multiset());
            assert forall|i: int, k: int|
                0 <= i < result@.len() && 0 <= k < rest@.len() implies (#[trigger] result@[i]).2 <= (
            #[trigger] rest@[k]).2 by {
                let ok = if k < best { k } else { k + 1 };
                assert(rest@[k] == old_rest[ok]);
            }
        }
    }
    proof {
        let cv = count_views(v0);
        let cr = count_views(result@);
        result@.to_multiset_ensures();
        rest@.to_multiset_ensures();
        assert forall|k: int| 0 <= k < cr.len() implies cv.contains(#[trigger] cr[k]) by {
            let e = result@[k];
            assert(result@.contains(e));
            assert(all.to_multiset().count(e) > 0);
            assert(v0.contains(e));
            let j = v0.index_of(e);
            assert(cv[j] == cr[k]);
        }
        assert forall|x: (Seq<char>, Seq<char>, nat)|
            #![trigger cv.contains(x)]
            cv.contains(x) && cr.len() > 0 && x.2 < cr.last().2 implies cr.contains(x) by {
            let j = cv.index_of(x);
            let e = v0[j];
            assert(v0.contains(e));
            assert(all.to_multiset().count(e) > 0);
            if result@.contains(e) {
                let k = result@.index_of(e);
                assert(cr[k] == x);
            } else {
                assert(rest@.to_multiset().count(e) > 0);
                assert(rest@.contains(e));
                let k = rest@.index_of(e);
                assert(result@[result@.len() - 1].2 <= rest@[k].2);
            }
        }
        if pairs_distinct(cv) {
            assert(v0.no_duplicates()) by {
                assert forall|i: int, j: int| 0 <= i < v0.len() && 0 <= j < v0.len() && i != j
                    implies v0[i] != v0[j] by {
                    if i < j {
                        assert((cv[i].0, cv[i].1) != (cv[j].0, cv[j].1));
                    } else {
                        assert((cv[j].0, cv[j].1) != (cv[i].0, cv[i].1));
                    }
                }
            }
            let both = result@ + rest@;
            vstd::seq_lib::lemma_multiset_commutative(result@, rest@);
            lemma_same_items_no_duplicates(v0, both);
            assert forall|i: int, j: int| 0 <= i < j < cr.len() implies ((#[trigger] cr[i]).0, cr[i].1)
                != ((#[trigger] cr[j]).0, cr[j].1) by {
                assert(both[i] == result@[i] && both[j] == result@[j]);
                let ei = result@[i];
                let ej = result@[j];
                assert(result@.contains(ei) && result@.contains(ej));
                assert(all.to_multiset().count(ei) > 0 && all.to_multiset().count(ej) > 0);
                assert(v0.contains(ei) && v0.contains(ej));
                let a = v0.index_of(ei);
                let b = v0.index_of(ej);
                assert(a != b);
                assert(cv[a] == cr[i] && cv[b] == cr[j]);
            }
        }
    }
    result
}

impl PlayHistory {
    /// The library artists due at `cutoff`, with their play counts, in library order.
    fn candidates_at(&self, stats: &Vec<ArtistStat>, library: &Vec<(String, String)>, cutoff: i64) -> (r:
        Vec<(String, String, u64)>)
        requires
            stat_ids(stats@) == artist_ids(self.records@),
            forall|k: int| 0 <= k < stats@.len() ==> stat_of(self.records@, #[trigger] stats@[k]),
        ensures
            count_views(r@) == candidates(self.records@, pair_views(library@), cutoff as int),
    {
        let ghost rs = self.records@;
        let ghost lib = pair_views(library@);
        proof {
            lemma_artist_ids(rs);
        }
        let mut r: Vec<(String, String, u64)> = Vec::new();
        let mut i: usize = 0;
        while i < library.len()
            invariant
                i <= library@.len(),
                lib == pair_views(library@),
                stat_ids(stats@) == artist_ids(rs),
                forall|k: int| 0 <= k < stats@.len() ==> stat_of(rs, #[trigger] stats@[k]),
                forall|id: Seq<char>| artist_ids(rs).contains(id) <==> artist_count(rs, id) > 0,
                count_views(r@) == candidates(rs, lib.take(i as int), cutoff as int),
            decreases library.len() - i,
        {
            let ghost t = lib.take(i + 1);
            assert(t.drop_last() == lib.take(i as int));
            assert(t.last() == lib[i as int]);
            let id = &library[i].0;
            let (due, count) = match find_stat(stats, id.as_str()) {
                Some(k) => {
                    assert(stat_of(rs, stats@[k as int]));
                    assert(stat_ids(stats@)[k as int] == id@);
                    assert(artist_ids(rs)[k as int] == id@);
                    assert(artist_ids(rs).contains(id@));
                    (stats[k].last < cutoff, stats[k].count)
                },
                None => {
                    assert(!artist_ids(rs).contains(id@));
                    assert(artist_count(rs, id@) == 0);
                    (true, 0u64)
                },
            };
            assert(due == stale(rs, id@, cutoff as int));
            assert(count == artist_count(rs, id@));
            if due {
                let ghost old_r = r@;
                r.push((library[i].0.clone(), library[i].1.clone(), count));
                assert(count_views(r@) == count_views(old_r).push(
                    (library@[i as int].0@, library@[i as int].1@, count as nat),
                ));
            }
            i = i + 1;
        }
        assert(lib.take(library@.len() as int) == lib);
        r
    }

    /// Artists of `library` (`(artist_id, artist_name)` pairs) not played recently, at
    /// time `now` (Unix seconds): see `rediscover_post`.
    pub fn rediscover_artists_at(&self, n: usize, library: &Vec<(String, String)>, now: i64) -> (r:
        Vec<(String, String)>)
        requires
            now >= i64::MIN + 14 * SECS_PER_DAY,
        ensures
            rediscover_post(self.records@, pair_views(library@), n as nat, now as int, pair_views(r@)),
    {
        if n == 0 || library.len() == 0 {
            return Vec::new();
        }
        let stats = self.artist_stats();
        let ghost rs = self.records@;
        let ghost lib = pair_views(library@);
        let c14 = self.candidates_at(&stats, library, now - 14 * SECS_PER_DAY);
        let c7 = self.candidates_at(&stats, library, now - 7 * SECS_PER_DAY);
        let c3 = self.candidates_at(&stats, library, now - 3 * SECS_PER_DAY);
        let chosen = if c14.len() >= n {
            Some(c14)
        } else if c7.len() >= n {
            Some(c7)
        } else if c3.len() >= n {
            Some(c3)
        } else {
            None
        };
        match chosen {
            Some(cands) => {
                let picked = pick_least(cands, n);
                let mut r: Vec<(String, String)> = Vec::new();
                let mut i: usize = 0;
                while i < picked.len()
                    invariant
                        i <= picked@.len(),
                        pair_views(r@) == Seq::new(
                            i as nat,
                            |k: int| (count_views(picked@)[k].0, count_views(picked@)[k].1),
                        ),
                    decreases picked.len() - i,
                {
                    let ghost old_r = r@;
                    r.push((picked[i].0.clone(), picked[i].1.clone()));
                    assert(pair_views(r@) == pair_views(old_r).push(
                        (count_views(picked@)[i as int].0, count_views(picked@)[i as int].1),
                    ));
                    i = i + 1;
                }
                proof {
                    let t = count_views(picked@);
                    assert(pair_views(r@) == Seq::new(t.len(), |k: int| (t[k].0, t[k].1)));
                    let c = rediscover_cutoff(rs, lib, n as nat, now as int).unwrap();
                    assert(least_played(candidates(rs, lib, c), n as nat, t));
                    lemma_candidates_from_library(rs, lib, c);
                    if lib.no_duplicates() {
                        assert(pairs_distinct(t));
                        assert(pair_views(r@).no_duplicates()) by {
                            assert forall|i: int, j: int|
                                0 <= i < pair_views(r@).len() && 0 <= j < pair_views(r@).len()
                                    && i != j implies pair_views(r@)[i] != pair_views(r@)[j] by {
                                if i < j {
                                    assert(((t[i]).0, t[i].1) != ((t[j]).0, t[j].1));
                                } else {
                                    assert(((t[j]).0, t[j].1) != ((t[i]).0, t[i].1));
                                }
                            }
                        }
                    }
                }
                r
            },
            None => {
                let mut all: Vec<(String, String)> = Vec::new();
                let mut i: usize = 0;
                while i < library.len()
                    invariant
                        i <= library@.len(),
                        all@ == library@.take(i as int),
                    decreases library.len() - i,
                {
                    all.push((library[i].0.clone(), library[i].1.clone()));
                    i = i + 1;
                }
                assert(library@.take(library@.len() as int) == library@);
                let ghost l0 = all@;
                shuffle_in_place(&mut all);
                let ghost sh = all@;
                all.truncate(n);
                proof {
                    l0.to_multiset_ensures();
                    sh.to_multiset_ensures();
                    assert forall|k: int| 0 <= k < pair_views(all@).len() implies lib.contains(
                        #[trigger] pair_views(all@)[k],
                    ) by {
                        let e = all@[k];
                        assert(e == sh[k]);
                        assert(sh.contains(e));
                        assert(sh.to_multiset().count(e) > 0);
                        assert(l0.to_multiset().count(e) > 0);
                        assert(l0.contains(e));
                        let j = l0.index_of(e);
                        assert(lib[j] == pair_views(all@)[k]);
                    }
                    if lib.no_duplicates() {
                        assert(l0.no_duplicates()) by {
                            assert forall|i: int, j: int| 0 <= i < l0.len() && 0 <= j < l0.len() && i != j
                                implies l0[i] != l0[j] by {
                                assert(lib[i] == pair_views(l0)[i] && lib[j] == pair_views(l0)[j]);
                            }
                        }
                        lemma_same_items_no_duplicates(l0, sh);
                        let pv = pair_views(all@);
                        assert forall|i: int, j: int| 0 <= i < pv.len() && 0 <= j < pv.len() && i != j
                            implies pv[i] != pv[j] by {
                            let ei = sh[i];
                            let ej = sh[j];
                            assert(ei != ej);
                            assert(sh.contains(ei) && sh.contains(ej));
                            assert(sh.to_multiset().count(ei) > 0 && sh.to_multiset().count(ej) > 0);
                            assert(l0.contains(ei) && l0.contains(ej));
                            let a = l0.index_of(ei);
                            let b = l0.index_of(ej);
                            assert(lib[a] == pv[i] && lib[b] == pv[j]);
                        }
                        assert(pv.no_duplicates());
                    }
                }
                all
            },
        }
    }

    /// Artists of `library` not played recently, at the current time (see
    /// `rediscover_artists_at`).
    pub fn rediscover_artists(&self, n: usize, library: &Vec<(String, String)>) -> (r: Vec<
        (String, String),
    >)
        ensures
            exists|now: int|
                now >= 0 && rediscover_post(
                    self.records@,
                    pair_views(library@),
                    n as nat,
                    now,
                    pair_views(r@),
                ),
    {
        let now = PlayRecord::now_secs();
        self.rediscover_artists_at(n, library, now)
    }
}

// ── Location ──────────────────────────────────────────────────────────────────

/// `$HOME/.local/share/playterm/history.json`, or `history.json` without a home.
pub open spec fn history_path_spec(home: Option<String>) -> Seq<char> {
    match home {
        Some(h) => path_join_spec(
            path_join_spec(path_join_spec(path_join_spec(h@, ".local"@), "share"@), "playterm"@),
            "history.json"@,
        ),
        None => "history.json"@,
    }
}

/// Where the history file lives, from the value of `HOME`.
pub fn history_path(home: Option<String>) -> (r: String)
    ensures
        r@ == history_path_spec(home),
{
    match home {
        Some(h) => {
            let a = path_join(h.as_str(), ".local");
            let b = path_join(a.as_str(), "share");
            let c = path_join(b.as_str(), "playterm");
            path_join(c.as_str(), "history.json")
        },
        None => String::from_str("history.json"),
    }
}

} // verus!
