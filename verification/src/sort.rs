//! Ordering of songs and strings: the lexicographic order of `String`, the
//! `(disc, track)` and `(album id, disc, track)` keys, and a sort by those keys.
use vstd::prelude::*;
use vstd::multiset::Multiset;

use crate::models::{Artist, Song};
use crate::text::chars_of;

verus! {

/// Lexicographic order of character sequences by code point, which is how `String`
/// (UTF-8 byte order) compares.
pub open spec fn seq_le(a: Seq<char>, b: Seq<char>) -> bool
    decreases a.len(),
{
    if a.len() == 0 {
        true
    } else if b.len() == 0 {
        false
    } else if a[0] < b[0] {
        true
    } else if a[0] > b[0] {
        false
    } else {
        seq_le(a.drop_first(), b.drop_first())
    }
}

/// Any two sequences are ordered one way or the other.
pub proof fn lemma_seq_le_total(a: Seq<char>, b: Seq<char>)
    ensures
        seq_le(a, b) || seq_le(b, a),
    decreases a.len(),
{
    if a.len() > 0 && b.len() > 0 && a[0] == b[0] {
        lemma_seq_le_total(a.drop_first(), b.drop_first());
    }
}

/// The order is transitive.
pub proof fn lemma_seq_le_trans(a: Seq<char>, b: Seq<char>, c: Seq<char>)
    requires
        seq_le(a, b),
        seq_le(b, c),
    ensures
        seq_le(a, c),
    decreases a.len(),
{
    if a.len() > 0 && b.len() > 0 && c.len() > 0 && a[0] == b[0] && b[0] == c[0] {
        lemma_seq_le_trans(a.drop_first(), b.drop_first(), c.drop_first());
    }
}

/// Mutual order means equality.
pub proof fn lemma_seq_le_antisym(a: Seq<char>, b: Seq<char>)
    requires
        seq_le(a, b),
        seq_le(b, a),
    ensures
        a == b,
    decreases a.len(),
{
    if a.len() > 0 && b.len() > 0 {
        lemma_seq_le_antisym(a.drop_first(), b.drop_first());
        assert(a =~= seq![a[0]] + a.drop_first());
        assert(b =~= seq![b[0]] + b.drop_first());
    }
}

/// `a <= b` for strings given as character vectors.
pub fn chars_le(a: &Vec<char>, b: &Vec<char>) -> (r: bool)
    ensures
        r == seq_le(a@, b@),
{
    let mut i: usize = 0;
    assert(a@.skip(0) == a@ && b@.skip(0) == b@);
    loop
        invariant
            i <= a.len(),
            i <= b.len(),
            seq_le(a@, b@) == seq_le(a@.skip(i as int), b@.skip(i as int)),
        decreases a.len() - i,
    {
        if i == a.len() {
            return true;
        }
        if i == b.len() {
            return false;
        }
        if a[i] < b[i] {
            return true;
        }
        if a[i] > b[i] {
            return false;
        }
        assert(a@.skip(i as int).drop_first() == a@.skip(i + 1));
        assert(b@.skip(i as int).drop_first() == b@.skip(i + 1));
        i = i + 1;
    }
}

/// Sort key of a song: album id (empty when absent), disc (1 when absent), track (0 when absent).
pub open spec fn album_key(s: Song) -> Seq<char> {
    match s.album_id {
        Some(a) => a@,
        None => Seq::empty(),
    }
}

/// Disc number, 1 when absent.
pub open spec fn disc_of(s: Song) -> int {
    match s.disc_number {
        Some(d) => d as int,
        None => 1,
    }
}

/// Track number, 0 when absent.
pub open spec fn track_of(s: Song) -> int {
    match s.track {
        Some(t) => t as int,
        None => 0,
    }
}

/// Key order: by `(disc, track)`, preceded by the album id when `by_album`.
pub open spec fn key_le(a: Song, b: Song, by_album: bool) -> bool {
    if by_album && album_key(a) != album_key(b) {
        seq_le(album_key(a), album_key(b))
    } else if disc_of(a) != disc_of(b) {
        disc_of(a) < disc_of(b)
    } else {
        track_of(a) <= track_of(b)
    }
}

proof fn lemma_key_total(a: Song, b: Song, by_album: bool)
    ensures
        key_le(a, b, by_album) || key_le(b, a, by_album),
{
    lemma_seq_le_total(album_key(a), album_key(b));
}

proof fn lemma_key_trans(a: Song, b: Song, c: Song, by_album: bool)
    requires
        key_le(a, b, by_album),
        key_le(b, c, by_album),
    ensures
        key_le(a, c, by_album),
{
    if by_album {
        if album_key(a) != album_key(b) && album_key(b) != album_key(c) {
            lemma_seq_le_trans(album_key(a), album_key(b), album_key(c));
            if album_key(a) == album_key(c) {
                lemma_seq_le_antisym(album_key(a), album_key(b));
            }
        }
    }
}

/// The songs are in non-decreasing key order.
pub open spec fn sorted_by_key(s: Seq<Song>, by_album: bool) -> bool {
    forall|i: int, j: int| 0 <= i < j < s.len() ==> key_le(#[trigger] s[i], #[trigger] s[j], by_album)
}

/// `a` and `b` have the same key: neither goes before the other.
pub open spec fn same_key(a: Song, b: Song, by_album: bool) -> bool {
    key_le(a, b, by_album) && key_le(b, a, by_album)
}

/// The songs of `s` with the same key as `y`, in their order in `s`.
pub open spec fn key_class(s: Seq<Song>, y: Song, by_album: bool) -> Seq<Song>
    decreases s.len(),
{
    if s.len() == 0 {
        seq![]
    } else {
        let p = key_class(s.drop_last(), y, by_album);
        if same_key(s.last(), y, by_album) {
            p.push(s.last())
        } else {
            p
        }
    }
}

/// Songs with equal keys keep their relative order: for every key, the songs of `r`
/// with that key come in the order they have in `s`.
pub open spec fn keeps_ties_in_order(r: Seq<Song>, s: Seq<Song>, by_album: bool) -> bool {
    forall|y: Song| #[trigger] key_class(r, y, by_album) == key_class(s, y, by_album)
}

proof fn lemma_key_class_add(a: Seq<Song>, b: Seq<Song>, y: Song, by_album: bool)
    ensures
        key_class(a + b, y, by_album) == key_class(a, y, by_album) + key_class(b, y, by_album),
    decreases b.len(),
{
    if b.len() == 0 {
        assert(a + b =~= a);
        assert(key_class(a, y, by_album) + key_class(b, y, by_album) =~= key_class(a, y, by_album));
    } else {
        lemma_key_class_add(a, b.drop_last(), y, by_album);
        assert((a + b).drop_last() =~= a + b.drop_last());
        assert((a + b).last() == b.last());
        if same_key(b.last(), y, by_album) {
            assert(key_class(a, y, by_album) + key_class(b.drop_last(), y, by_album).push(b.last())
                =~= (key_class(a, y, by_album) + key_class(b.drop_last(), y, by_album)).push(b.last()));
        }
    }
}

proof fn lemma_key_class_none(s: Seq<Song>, y: Song, by_album: bool)
    requires
        forall|k: int| 0 <= k < s.len() ==> !same_key(#[trigger] s[k], y, by_album),
    ensures
        key_class(s, y, by_album) == Seq::<Song>::empty(),
    decreases s.len(),
{
    if s.len() > 0 {
        assert(s.last() == s[s.len() - 1]);
        lemma_key_class_none(s.drop_last(), y, by_album);
    }
}

/// Inserting `x` at `j`, ahead of songs that all go after it, adds `x` at the end of its
/// key's class.
proof fn lemma_key_class_insert(r: Seq<Song>, j: int, x: Song, y: Song, by_album: bool)
    requires
        0 <= j <= r.len(),
        forall|k: int| j <= k < r.len() ==> !key_le(#[trigger] r[k], x, by_album),
    ensures
        key_class(r.insert(j, x), y, by_album) == (if same_key(x, y, by_album) {
            key_class(r, y, by_album).push(x)
        } else {
            key_class(r, y, by_album)
        }),
{
    let a = r.take(j);
    let b = r.skip(j);
    assert(r.insert(j, x) =~= a + seq![x] + b);
    assert(r =~= a + b);
    lemma_key_class_add(a + seq![x], b, y, by_album);
    lemma_key_class_add(a, seq![x], y, by_album);
    lemma_key_class_add(a, b, y, by_album);
    assert(seq![x].drop_last() =~= Seq::<Song>::empty());
    assert(seq![x].last() == x);
    assert(key_class(Seq::<Song>::empty(), y, by_album) == Seq::<Song>::empty());
    let kx = key_class(seq![x], y, by_album);
    assert(kx == (if same_key(x, y, by_album) {
        Seq::<Song>::empty().push(x)
    } else {
        Seq::<Song>::empty()
    }));
    let ka = key_class(a, y, by_album);
    let kb = key_class(b, y, by_album);
    assert(key_class(r.insert(j, x), y, by_album) == ka + kx + kb);
    assert(key_class(r, y, by_album) == ka + kb);
    if same_key(x, y, by_album) {
        assert forall|k: int| 0 <= k < b.len() implies !same_key(#[trigger] b[k], y, by_album) by {
            assert(b[k] == r[j + k]);
            if same_key(b[k], y, by_album) {
                lemma_key_trans(b[k], y, x, by_album);
            }
        }
        lemma_key_class_none(b, y, by_album);
        assert(ka + kx + kb =~= ka.push(x));
        assert(ka + kb =~= ka);
    } else {
        assert(ka + kx + kb =~= ka + kb);
    }
}

fn opt_chars(o: &Option<String>) -> (r: Vec<char>)
    ensures
        r@ == (match o {
            Some(a) => a@,
            None => Seq::<char>::empty(),
        }),
{
    match o {
        Some(a) => chars_of(a.as_str()),
        None => Vec::new(),
    }
}

/// Strict key order `key(a) < key(b)`.
fn key_less(a: &Song, b: &Song, by_album: bool) -> (r: bool)
    ensures
        r == !key_le(*b, *a, by_album),
{
    if by_album {
        let ka = opt_chars(&a.album_id);
        let kb = opt_chars(&b.album_id);
        let eq = crate::text::seq_eq(&ka, &kb);
        if !eq {
            return !chars_le(&kb, &ka);
        }
    }
    let da: u32 = match a.disc_number {
        Some(d) => d,
        None => 1,
    };
    let db: u32 = match b.disc_number {
        Some(d) => d,
        None => 1,
    };
    if da != db {
        return da < db;
    }
    let ta: u32 = match a.track {
        Some(t) => t,
        None => 0,
    };
    let tb: u32 = match b.track {
        Some(t) => t,
        None => 0,
    };
    ta < tb
}

proof fn lemma_insert_sorted(old_r: Seq<Song>, j: int, x: Song, by_album: bool)
    requires
        0 <= j <= old_r.len(),
        sorted_by_key(old_r, by_album),
        forall|k: int| j <= k < old_r.len() ==> !key_le(#[trigger] old_r[k], x, by_album),
        j > 0 ==> key_le(old_r[j - 1], x, by_album),
    ensures
        sorted_by_key(old_r.insert(j, x), by_album),
{
    let r = old_r.insert(j, x);
    old_r.insert_ensures(j, x);
    assert forall|a: int, b: int| 0 <= a < b < r.len() implies key_le(
        #[trigger] r[a],
        #[trigger] r[b],
        by_album,
    ) by {
        if a < j && b < j {
            assert(r[a] == old_r[a] && r[b] == old_r[b]);
        } else if a < j && b == j {
            if a < j - 1 {
                assert(key_le(old_r[a], old_r[j - 1], by_album));
                lemma_key_trans(old_r[a], old_r[j - 1], x, by_album);
            }
        } else if a < j {
            assert(r[a] == old_r[a] && r[b] == old_r[b - 1]);
        } else if a == j {
            assert(r[b] == old_r[b - 1]);
            lemma_key_total(old_r[b - 1], x, by_album);
        } else {
            assert(r[a] == old_r[a - 1] && r[b] == old_r[b - 1]);
        }
    }
}

proof fn lemma_insert_sorted_names(old_r: Seq<Artist>, j: int, x: Artist)
    requires
        0 <= j <= old_r.len(),
        sorted_by_name(old_r),
        forall|k: int| j <= k < old_r.len() ==> !seq_le(#[trigger] old_r[k].name@, x.name@),
        j > 0 ==> seq_le(old_r[j - 1].name@, x.name@),
    ensures
        sorted_by_name(old_r.insert(j, x)),
{
    let r = old_r.insert(j, x);
    old_r.insert_ensures(j, x);
    assert forall|a: int, b: int| 0 <= a < b < r.len() implies seq_le(
        #[trigger] r[a].name@,
        #[trigger] r[b].name@,
    ) by {
        if a < j && b < j {
            assert(r[a] == old_r[a] && r[b] == old_r[b]);
        } else if a < j && b == j {
            if a < j - 1 {
                assert(seq_le(old_r[a].name@, old_r[j - 1].name@));
                lemma_seq_le_trans(old_r[a].name@, old_r[j - 1].name@, x.name@);
            }
        } else if a < j {
            assert(r[a] == old_r[a] && r[b] == old_r[b - 1]);
        } else if a == j {
            assert(r[b] == old_r[b - 1]);
            lemma_seq_le_total(old_r[b - 1].name@, x.name@);
        } else {
            assert(r[a] == old_r[a - 1] && r[b] == old_r[b - 1]);
        }
    }
}

proof fn lemma_push_multiset<A>(s: Seq<A>, x: A)
    ensures
        s.push(x).to_multiset() =~= s.to_multiset().insert(x),
{
    s.to_multiset_ensures();
}

/// Exchanging two elements keeps the multiset.
pub proof fn lemma_swap_multiset<A>(s: Seq<A>, i: int, j: int)
    requires
        0 <= i < s.len(),
        0 <= j < s.len(),
    ensures
        s.update(i, s[j]).update(j, s[i]).to_multiset() =~= s.to_multiset(),
{
    let u = s.update(i, s[j]);
    vstd::seq_lib::to_multiset_update(s, i, s[j]);
    vstd::seq_lib::to_multiset_update(u, j, s[i]);
    s.to_multiset_ensures();
    assert(s.contains(s[i]));
    assert(s.contains(s[j]));
    if i == j {
        assert(s.update(i, s[j]).update(j, s[i]) =~= s);
    } else {
        assert(u[j] == s[j]);
        let m = s.to_multiset();
        assert(m.insert(s[j]).remove(s[i]).insert(s[i]).remove(s[j]) =~= m);
    }
}

proof fn lemma_insert_multiset<A>(s: Seq<A>, j: int, x: A)
    requires
        0 <= j <= s.len(),
    ensures
        s.insert(j, x).to_multiset() =~= s.to_multiset().insert(x),
{
    let t = s.insert(j, x);
    s.insert_ensures(j, x);
    assert(t.remove(j) =~= s);
    t.to_multiset_ensures();
    assert(t[j] == x);
    assert(t.contains(x));
    assert(s.to_multiset() =~= t.to_multiset().remove(x));
}

/// Stable insertion sort of songs by their key.
pub fn sort_songs(songs: Vec<Song>, by_album: bool) -> (r: Vec<Song>)
    ensures
        sorted_by_key(r@, by_album),
        r@.to_multiset() == songs@.to_multiset(),
        keeps_ties_in_order(r@, songs@, by_album),
{
    let mut r: Vec<Song> = Vec::new();
    let mut i: usize = 0;
    assert(r@ =~= songs@.take(0));
    while i < songs.len()
        invariant
            i <= songs.len(),
            sorted_by_key(r@, by_album),
            r@.to_multiset() == songs@.take(i as int).to_multiset(),
            keeps_ties_in_order(r@, songs@.take(i as int), by_album),
        decreases songs.len() - i,
    {
        let x = songs[i].clone();
        let mut j = r.len();
        while j > 0 && key_less(&x, &r[j - 1], by_album)
            invariant
                j <= r.len(),
                sorted_by_key(r@, by_album),
                forall|k: int| j <= k < r@.len() ==> !key_le(#[trigger] r@[k], x, by_album),
            decreases j,
        {
            j = j - 1;
        }
        let ghost old_r = r@;
        proof {
            if j > 0 {
                lemma_key_total(x, old_r[j - 1], by_album);
            }
            lemma_insert_sorted(old_r, j as int, x, by_album);
            lemma_insert_multiset(old_r, j as int, x);
            assert(songs@.take(i + 1) =~= songs@.take(i as int).push(songs@[i as int]));
            lemma_push_multiset(songs@.take(i as int), songs@[i as int]);
            let t = songs@.take(i + 1);
            assert(t.drop_last() == songs@.take(i as int));
            assert(t.last() == x);
            assert forall|y: Song| #[trigger] key_class(old_r.insert(j as int, x), y, by_album)
                == key_class(t, y, by_album) by {
                lemma_key_class_insert(old_r, j as int, x, y, by_album);
                assert(key_class(old_r, y, by_album) == key_class(songs@.take(i as int), y, by_album));
            }
        }
        r.insert(j, x);
        i = i + 1;
    }
    assert(songs@.take(songs.len() as int) =~= songs@);
    r
}

/// Names in non-decreasing order.
pub open spec fn sorted_by_name(s: Seq<Artist>) -> bool {
    forall|i: int, j: int| 0 <= i < j < s.len() ==> seq_le(#[trigger] s[i].name@, #[trigger] s[j].name@)
}

/// The artists of `s` named as `y` is, in their order in `s`.
pub open spec fn name_class(s: Seq<Artist>, y: Seq<char>) -> Seq<Artist>
    decreases s.len(),
{
    if s.len() == 0 {
        seq![]
    } else {
        let p = name_class(s.drop_last(), y);
        if s.last().name@ == y {
            p.push(s.last())
        } else {
            p
        }
    }
}

/// Artists with the same name keep their relative order.
pub open spec fn keeps_namesakes_in_order(r: Seq<Artist>, s: Seq<Artist>) -> bool {
    forall|y: Seq<char>| #[trigger] name_class(r, y) == name_class(s, y)
}

proof fn lemma_name_class_add(a: Seq<Artist>, b: Seq<Artist>, y: Seq<char>)
    ensures
        name_class(a + b, y) == name_class(a, y) + name_class(b, y),
    decreases b.len(),
{
    if b.len() == 0 {
        assert(a + b =~= a);
        assert(name_class(a, y) + name_class(b, y) =~= name_class(a, y));
    } else {
        lemma_name_class_add(a, b.drop_last(), y);
        assert((a + b).drop_last() =~= a + b.drop_last());
        assert((a + b).last() == b.last());
        if b.last().name@ == y {
            assert(name_class(a, y) + name_class(b.drop_last(), y).push(b.last()) =~= (name_class(a, y)
                + name_class(b.drop_last(), y)).push(b.last()));
        }
    }
}

proof fn lemma_name_class_none(s: Seq<Artist>, y: Seq<char>)
    requires
        forall|k: int| 0 <= k < s.len() ==> (#[trigger] s[k]).name@ != y,
    ensures
        name_class(s, y) == Seq::<Artist>::empty(),
    decreases s.len(),
{
    if s.len() > 0 {
        assert(s.last() == s[s.len() - 1]);
        lemma_name_class_none(s.drop_last(), y);
    }
}

/// Inserting `x` at `j`, ahead of artists whose names all go after its name, adds `x` at
/// the end of its name's class.
proof fn lemma_name_class_insert(r: Seq<Artist>, j: int, x: Artist, y: Seq<char>)
    requires
        0 <= j <= r.len(),
        forall|k: int| j <= k < r.len() ==> !seq_le(#[trigger] r[k].name@, x.name@),
    ensures
        name_class(r.insert(j, x), y) == (if x.name@ == y {
            name_class(r, y).push(x)
        } else {
            name_class(r, y)
        }),
{
    let a = r.take(j);
    let b = r.skip(j);
    assert(r.insert(j, x) =~= a + seq![x] + b);
    assert(r =~= a + b);
    lemma_name_class_add(a + seq![x], b, y);
    lemma_name_class_add(a, seq![x], y);
    lemma_name_class_add(a, b, y);
    assert(seq![x].drop_last() =~= Seq::<Artist>::empty());
    assert(seq![x].last() == x);
    assert(name_class(Seq::<Artist>::empty(), y) == Seq::<Artist>::empty());
    let kx = name_class(seq![x], y);
    assert(kx == (if x.name@ == y {
        Seq::<Artist>::empty().push(x)
    } else {
        Seq::<Artist>::empty()
    }));
    let ka = name_class(a, y);
    let kb = name_class(b, y);
    assert(name_class(r.insert(j, x), y) == ka + kx + kb);
    assert(name_class(r, y) == ka + kb);
    if x.name@ == y {
        assert forall|k: int| 0 <= k < b.len() implies (#[trigger] b[k]).name@ != y by {
            assert(b[k] == r[j + k]);
            if b[k].name@ == y {
                lemma_seq_le_total(y, y);
            }
        }
        lemma_name_class_none(b, y);
        assert(ka + kx + kb =~= ka.push(x));
        assert(ka + kb =~= ka);
    } else {
        assert(ka + kx + kb =~= ka + kb);
    }
}

/// Stable insertion sort of artists by name.
pub fn sort_artists_by_name(artists: Vec<Artist>) -> (r: Vec<Artist>)
    ensures
        sorted_by_name(r@),
        r@.to_multiset() == artists@.to_multiset(),
        keeps_namesakes_in_order(r@, artists@),
{
    let mut src = artists;
    let mut r: Vec<Artist> = Vec::new();
    let ghost all = src@;
    let mut taken: usize = 0;
    assert(r@ =~= all.take(0));
    assert(all.skip(0) =~= all);
    assert(all.len() == src.len());
    while src.len() > 0
        invariant
            taken + src@.len() == all.len(),
            all.len() <= usize::MAX,
            sorted_by_name(r@),
            taken <= all.len(),
            src@ == all.skip(taken as int),
            r@.to_multiset() == all.take(taken as int).to_multiset(),
            keeps_namesakes_in_order(r@, all.take(taken as int)),
        decreases src.len(),
    {
        let x = src.remove(0);
        let xn = chars_of(x.name.as_str());
        let mut j = r.len();
        while j > 0 && !chars_le(&chars_of(r[j - 1].name.as_str()), &xn)
            invariant
                j <= r.len(),
                xn@ == x.name@,
                sorted_by_name(r@),
                forall|k: int| j <= k < r@.len() ==> !seq_le(#[trigger] r@[k].name@, x.name@),
            decreases j,
        {
            j = j - 1;
        }
        let ghost old_r = r@;
        proof {
            if j > 0 {
                lemma_seq_le_total(x.name@, old_r[j - 1].name@);
            }
            lemma_insert_sorted_names(old_r, j as int, x);
            lemma_insert_multiset(old_r, j as int, x);
            assert(all.skip(taken as int)[0] == x);
            assert(all.take(taken + 1) =~= all.take(taken as int).push(all[taken as int]));
            lemma_push_multiset(all.take(taken as int), all[taken as int]);
            assert(all.skip(taken + 1) =~= all.skip(taken as int).drop_first());
            let t = all.take(taken + 1);
            assert(t.drop_last() == all.take(taken as int));
            assert(t.last() == x);
            assert forall|y: Seq<char>| #[trigger] name_class(old_r.insert(j as int, x), y) == name_class(t, y) by {
                lemma_name_class_insert(old_r, j as int, x, y);
                assert(name_class(old_r, y) == name_class(all.take(taken as int), y));
            }
        }
        r.insert(j, x);
        taken = taken + 1;
    }
    assert(all.take(all.len() as int) =~= all);
    r
}

} // verus!
