//! Lyrics: LRC parsing and the choice between synced and plain lyrics in an LRCLib
//! answer.
use vstd::prelude::*;
use crate::models::LyricLine;
use crate::text::{
    chars_of, find, find_char, lines, parse_u64, parse_u64_range, split_lines, string_from, trim,
    trim_chars,
};
use vstd::wrapping::u64_specs::{wrapping_add, wrapping_mul};

verus! {

/// `[mm:ss.cc]` as milliseconds, computed with wrapping arithmetic as a release build of
/// `(mins * 60 + secs) * 1000 + cs * 10` does.
pub open spec fn lrc_millis(mins: u64, secs: u64, cs: u64) -> u64 {
    wrapping_add(wrapping_mul(wrapping_add(wrapping_mul(mins, 60), secs), 1000), wrapping_mul(cs, 10))
}

/// One LRC line `[MM:SS.xx] text`: its time in milliseconds and its trimmed text.
pub open spec fn lrc_line(line: Seq<char>) -> Option<(u64, Seq<char>)> {
    let t = trim(line);
    if t.len() == 0 || t[0] != '[' {
        None
    } else {
        let close = find_char(t, ']');
        if close < 0 {
            None
        } else {
            let tag = t.subrange(1, close);
            let text = trim(t.skip(close + 1));
            let colon = find_char(tag, ':');
            let dot = find_char(tag, '.');
            if colon < 0 || dot < 0 || dot <= colon {
                None
            } else {
                match (
                    parse_u64(tag.take(colon)),
                    parse_u64(tag.subrange(colon + 1, dot)),
                    parse_u64(tag.skip(dot + 1)),
                ) {
                    (Some(m), Some(s), Some(c)) => Some((lrc_millis(m, s, c), text)),
                    _ => None,
                }
            }
        }
    }
}

/// `[mm:ss.cc]` is `(mm * 60 + ss) * 1000 + cc * 10` milliseconds whenever that fits
/// in 64 bits.
pub proof fn law_lrc_millis(m: u64, s: u64, c: u64)
    requires
        (m * 60 + s) * 1000 + c * 10 <= u64::MAX,
    ensures
        lrc_millis(m, s, c) == (m * 60 + s) * 1000 + c * 10,
{
    let a = m as int * 60;
    let b = (a + s) * 1000;
    let d = c as int * 10;
    assert(0 <= a <= a + s <= b) by (nonlinear_arith)
        requires
            a == m as int * 60,
            b == (a + s) * 1000,
            0 <= m,
            0 <= s,
    ;
    assert(0 <= d);
    let r: int = 0x1_0000_0000_0000_0000;
    vstd::arithmetic::div_mod::lemma_small_mod(a as nat, r as nat);
    vstd::arithmetic::div_mod::lemma_small_mod(b as nat, r as nat);
    vstd::arithmetic::div_mod::lemma_small_mod(d as nat, r as nat);
}

/// `c` does not occur in `s`.
pub open spec fn lacks(s: Seq<char>, c: char) -> bool {
    forall|k: int| 0 <= k < s.len() ==> s[k] != c
}

/// A line `[mm:ss.cc] text` (after trimming) whose three numbers read as `m`, `s` and `c`
/// parses to the time `m:s.c` and the whole of `text`, trimmed: nothing of the text after
/// the closing bracket is lost.
pub proof fn law_lrc_line_parts(
    line: Seq<char>,
    mm: Seq<char>,
    ss: Seq<char>,
    cc: Seq<char>,
    text: Seq<char>,
    m: u64,
    s: u64,
    c: u64,
)
    requires
        trim(line) == seq!['['] + mm + seq![':'] + ss + seq!['.'] + cc + seq![']'] + text,
        lacks(mm, ':') && lacks(mm, '.') && lacks(mm, ']'),
        lacks(ss, '.') && lacks(ss, ']'),
        lacks(cc, ']'),
        parse_u64(mm) == Some(m),
        parse_u64(ss) == Some(s),
        parse_u64(cc) == Some(c),
    ensures
        lrc_line(line) == Some((lrc_millis(m, s, c), trim(text))),
{
    let t = trim(line);
    let close: int = mm.len() + ss.len() + cc.len() + 3int;
    let tag = mm + seq![':'] + ss + seq!['.'] + cc;
    assert(t[0] == '[');
    crate::text::lemma_find_char(t, ']');
    assert(t[close] == ']');
    assert forall|j: int| 0 <= j < close implies t[j] != ']' by {
        if 1 <= j <= mm.len() {
            assert(t[j] == mm[j - 1]);
        } else if mm.len() + 2 <= j <= mm.len() + 1 + ss.len() {
            assert(t[j] == ss[j - mm.len() - 2]);
        } else if mm.len() + ss.len() + 3 <= j < close {
            assert(t[j] == cc[j - mm.len() - ss.len() - 3]);
        }
    }
    assert(find_char(t, ']') == close);
    assert(t.subrange(1, close) =~= tag);
    assert(t.skip(close + 1) =~= text);
    crate::text::lemma_find_char(tag, ':');
    assert(tag[mm.len() as int] == ':');
    assert forall|j: int| 0 <= j < mm.len() implies tag[j] != ':' by {
        assert(tag[j] == mm[j]);
    }
    assert(find_char(tag, ':') == mm.len());
    crate::text::lemma_find_char(tag, '.');
    let dot: int = mm.len() + 1int + ss.len();
    assert(tag[dot] == '.');
    assert forall|j: int| 0 <= j < dot implies tag[j] != '.' by {
        if j < mm.len() {
            assert(tag[j] == mm[j]);
        } else if j > mm.len() {
            assert(tag[j] == ss[j - mm.len() - 1]);
        }
    }
    assert(find_char(tag, '.') == dot);
    assert(tag.take(mm.len() as int) =~= mm);
    assert(tag.subrange(mm.len() + 1int, dot) =~= ss);
    assert(tag.skip(dot + 1) =~= cc);
}

/// The timed lines of LRC text, in order; lines that do not parse are skipped.
pub open spec fn lrc_lines(ls: Seq<Seq<char>>) -> Seq<(u64, Seq<char>)>
    decreases ls.len(),
{
    if ls.len() == 0 {
        seq![]
    } else {
        let p = lrc_lines(ls.drop_last());
        match lrc_line(ls.last()) {
            Some(x) => p.push(x),
            None => p,
        }
    }
}

/// What a list of lyrics lines holds: each line's time and text.
pub open spec fn lyric_views(v: Seq<LyricLine>) -> Seq<(Option<u64>, Seq<char>)> {
    Seq::new(v.len(), |i: int| (v[i].time_ms, v[i].text@))
}

/// The same lines, timed.
pub open spec fn timed(v: Seq<(u64, Seq<char>)>) -> Seq<(Option<u64>, Seq<char>)> {
    Seq::new(v.len(), |i: int| (Some(v[i].0), v[i].1))
}

/// Parses one LRC line (see `lrc_line`).
pub fn parse_lrc_line(line: &str) -> (r: Option<LyricLine>)
    ensures
        match lrc_line(line@) {
            Some((ms, text)) => r.is_some() && r.unwrap().time_ms == Some(ms) && r.unwrap().text@
                == text,
            None => r.is_none(),
        },
{
    let v = chars_of(line);
    let t = trim_chars(&v);
    if t.len() == 0 || t[0] != '[' {
        return None;
    }
    let close = match find(&t, ']') {
        Some(c) => c,
        None => return None,
    };
    proof {
        crate::text::lemma_find_char(t@, ']');
    }
    let tag = string_from(&t, 1, close);
    let tagv = chars_of(tag.as_str());
    let after = string_from(&t, close + 1, t.len());
    assert(after@ == t@.skip(close + 1));
    let afterv = chars_of(after.as_str());
    let textv = trim_chars(&afterv);
    let text = string_from(&textv, 0, textv.len());
    assert(textv@.subrange(0, textv@.len() as int) == textv@);
    let colon = match find(&tagv, ':') {
        Some(c) => c,
        None => return None,
    };
    let dot = match find(&tagv, '.') {
        Some(d) => d,
        None => return None,
    };
    if dot <= colon {
        return None;
    }
    proof {
        crate::text::lemma_find_char(tagv@, '.');
    }
    let m = parse_u64_range(&tagv, 0, colon);
    let s = parse_u64_range(&tagv, colon + 1, dot);
    let c = parse_u64_range(&tagv, dot + 1, tagv.len());
    assert(tagv@.subrange(0, colon as int) == tagv@.take(colon as int));
    assert(tagv@.subrange(dot + 1, tagv@.len() as int) == tagv@.skip(dot + 1));
    match (m, s, c) {
        (Some(m), Some(s), Some(c)) => {
            let ms = m.wrapping_mul(60).wrapping_add(s).wrapping_mul(1000).wrapping_add(
                c.wrapping_mul(10),
            );
            Some(LyricLine { time_ms: Some(ms), text })
        },
        _ => None,
    }
}

/// Parses LRC text into timed lines; lines that do not parse are skipped.
pub fn parse_lrc(lrc: &str) -> (r: Vec<LyricLine>)
    ensures
        lyric_views(r@) == timed(lrc_lines(lines(lrc@))),
{
    let v = chars_of(lrc);
    let ls = split_lines(&v);
    let ghost all = lines(lrc@);
    let mut r: Vec<LyricLine> = Vec::new();
    let mut i: usize = 0;
    while i < ls.len()
        invariant
            i <= ls@.len(),
            ls@.len() == all.len(),
            all == lines(lrc@),
            forall|k: int| 0 <= k < ls@.len() ==> #[trigger] ls@[k]@ == all[k],
            lyric_views(r@) == timed(lrc_lines(all.take(i as int))),
        decreases ls.len() - i,
    {
        let piece = string_from(&ls[i], 0, ls[i].len());
        assert(ls@[i as int]@.subrange(0, ls@[i as int]@.len() as int) == ls@[i as int]@);
        let ghost t = all.take(i + 1);
        assert(t.drop_last() == all.take(i as int));
        assert(t.last() == all[i as int]);
        let ghost old_r = r@;
        if let Some(l) = parse_lrc_line(piece.as_str()) {
            r.push(l);
            assert(lyric_views(r@) == lyric_views(old_r).push((r@.last().time_ms, r@.last().text@)));
        }
        i = i + 1;
    }
    assert(all.take(all.len() as int) == all);
    r
}

/// The same lines, untimed.
pub open spec fn untimed(v: Seq<Seq<char>>) -> Seq<(Option<u64>, Seq<char>)> {
    Seq::new(v.len(), |i: int| (None::<u64>, v[i]))
}

/// The lyrics an LRCLib answer gives: none unless the request succeeded; then the synced
/// lyrics when present and non-empty, else the plain lyrics line by line, else none.
pub open spec fn lyrics_choice(ok: bool, synced: Option<Seq<char>>, plain: Option<Seq<char>>) -> Seq<
    (Option<u64>, Seq<char>),
> {
    if !ok {
        seq![]
    } else if synced.is_some() && synced.unwrap().len() > 0 {
        timed(lrc_lines(lines(synced.unwrap())))
    } else if plain.is_some() && plain.unwrap().len() > 0 {
        untimed(lines(plain.unwrap()))
    } else {
        seq![]
    }
}

/// The characters of an optional string.
pub open spec fn opt_chars(o: Option<String>) -> Option<Seq<char>> {
    match o {
        Some(s) => Some(s@),
        None => None,
    }
}

/// Picks the lyrics out of an LRCLib answer (`ok`: the HTTP status was a success).
pub fn lyrics_from_response(ok: bool, synced: Option<String>, plain: Option<String>) -> (r: Vec<
    LyricLine,
>)
    ensures
        lyric_views(r@) == lyrics_choice(ok, opt_chars(synced), opt_chars(plain)),
{
    if !ok {
        let r: Vec<LyricLine> = Vec::new();
        assert(lyric_views(r@) == Seq::<(Option<u64>, Seq<char>)>::empty());
        return r;
    }
    if let Some(s) = &synced {
        if !s.as_str().is_empty() {
            return parse_lrc(s.as_str());
        }
    }
    if let Some(p) = &plain {
        if !p.as_str().is_empty() {
            let v = chars_of(p.as_str());
            let ls = split_lines(&v);
            let mut r: Vec<LyricLine> = Vec::new();
            let mut i: usize = 0;
            while i < ls.len()
                invariant
                    i <= ls@.len(),
                    ls@.len() == lines(p@).len(),
                    forall|k: int| 0 <= k < ls@.len() ==> #[trigger] ls@[k]@ == lines(p@)[k],
                    lyric_views(r@) == untimed(lines(p@).take(i as int)),
                decreases ls.len() - i,
            {
                let text = string_from(&ls[i], 0, ls[i].len());
                assert(ls@[i as int]@.subrange(0, ls@[i as int]@.len() as int) == ls@[i as int]@);
                let ghost old_r = r@;
                r.push(LyricLine { time_ms: None, text });
                assert(lyric_views(r@) == lyric_views(old_r).push((None::<u64>, lines(p@)[i as int])));
                assert(untimed(lines(p@).take(i + 1)) == untimed(lines(p@).take(i as int)).push(
                    (None::<u64>, lines(p@)[i as int]),
                ));
                i = i + 1;
            }
            assert(lines(p@).take(lines(p@).len() as int) == lines(p@));
            return r;
        }
    }
    let r: Vec<LyricLine> = Vec::new();
    assert(lyric_views(r@) == Seq::<(Option<u64>, Seq<char>)>::empty());
    r
}


// ── Following synced lyrics ───────────────────────────────────────────────────

/// The last of the first `k` lines whose time has come at `elapsed_ms`.
pub open spec fn current_upto(lines: Seq<LyricLine>, elapsed_ms: u64, k: nat) -> Option<nat>
    decreases k,
{
    if k == 0 {
        None
    } else {
        let i = (k - 1) as nat;
        match lines[i as int].time_ms {
            Some(t) if t <= elapsed_ms => Some(i),
            _ => current_upto(lines, elapsed_ms, i),
        }
    }
}

/// The line being sung at `elapsed_ms`: the last line whose timestamp is not after it
/// (untimed lines never are); `None` before the first one.
pub fn current_line(lines: &Vec<LyricLine>, elapsed_ms: u64) -> (r: Option<usize>)
    ensures
        match r {
            Some(i) => current_upto(lines@, elapsed_ms, lines@.len()) == Some(i as nat),
            None => current_upto(lines@, elapsed_ms, lines@.len()) is None,
        },
        r matches Some(i) ==> i < lines@.len() && (lines@[i as int].time_ms matches Some(t)
            && t <= elapsed_ms),
        r matches Some(i) ==> forall|j: int|
            i < j < lines@.len() ==> !(#[trigger] lines@[j].time_ms matches Some(t) && t
                <= elapsed_ms),
        r is None ==> forall|j: int|
            0 <= j < lines@.len() ==> !(#[trigger] lines@[j].time_ms matches Some(t) && t
                <= elapsed_ms),
{
    let mut k = lines.len();
    while k > 0
        invariant
            k <= lines@.len(),
            current_upto(lines@, elapsed_ms, lines@.len()) == current_upto(lines@, elapsed_ms, k as nat),
            forall|j: int|
                k <= j < lines@.len() ==> !(#[trigger] lines@[j].time_ms matches Some(t) && t
                    <= elapsed_ms),
        decreases k,
    {
        let i = k - 1;
        match lines[i].time_ms {
            Some(t) => {
                if t <= elapsed_ms {
                    return Some(i);
                }
            },
            None => {},
        }
        k = i;
    }
    None
}

/// The first line shown of synced lyrics `height` rows tall: the current line is kept in
/// the middle; the top before any line is current.
pub fn synced_scroll(current: Option<usize>, height: usize) -> (r: usize)
    ensures
        r == (match current {
            Some(c) => if c >= height / 2 {
                (c - height / 2) as usize
            } else {
                0
            },
            None => 0,
        }),
{
    match current {
        Some(c) => c.saturating_sub(height / 2),
        None => 0,
    }
}

} // verus!
