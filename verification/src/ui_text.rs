//! Text shaping for the interface: truncation, word wrapping, the quality label of a
//! track, and the help popup's contents.
use vstd::prelude::*;
use crate::models::{Album, Song};
use crate::text::{
    chars_of, clock_label, decimal, format_clock, lowercase, push_char, push_decimal, push_str,
    string_from, to_lowercase, to_uppercase, uppercase,
};

verus! {

// ── Truncation ────────────────────────────────────────────────────────────────

/// `s` cut to `max` characters, the last one replaced by `…` when something was cut;
/// nothing at all for a maximum of 0.
pub open spec fn trunc_spec(s: Seq<char>, max: nat) -> Seq<char> {
    if s.len() <= max {
        s
    } else if max == 0 {
        seq![]
    } else {
        s.take(max - 1).push('…')
    }
}

/// Truncates `s` to at most `max` characters, ending with `…` when shortened.
pub fn trunc(s: &str, max: usize) -> (r: String)
    ensures
        r@ == trunc_spec(s@, max as nat),
        r@.len() <= max,
{
    let v = chars_of(s);
    if v.len() <= max {
        return string_from(&v, 0, v.len());
    }
    if max == 0 {
        return String::new();
    }
    let mut r = string_from(&v, 0, max - 1);
    push_char(&mut r, '…');
    r
}

// ── Word wrapping ─────────────────────────────────────────────────────────────

/// Index of the last space of `s`, or -1.
pub open spec fn last_space(s: Seq<char>) -> int
    decreases s.len(),
{
    if s.len() == 0 {
        -1
    } else if s.last() == ' ' {
        s.len() - 1
    } else {
        last_space(s.drop_last())
    }
}

/// The first index at or after `i` that does not hold a space.
pub open spec fn skip_spaces(c: Seq<char>, i: int) -> int
    decreases c.len() - i,
{
    if 0 <= i < c.len() && c[i] == ' ' {
        skip_spaces(c, i + 1)
    } else {
        i
    }
}

/// Where the line starting at `start` ends: `width` characters on, pulled back to the
/// last space in that window unless the text ends first.
pub open spec fn break_at(c: Seq<char>, start: int, width: int) -> int {
    let end = if start + width < c.len() {
        start + width
    } else {
        c.len() as int
    };
    if end < c.len() && last_space(c.subrange(start, end)) >= 0 {
        start + last_space(c.subrange(start, end))
    } else {
        end
    }
}

/// The lines of `c` from `start` on, each broken at `break_at`, the spaces at a break
/// dropped.
pub open spec fn wrap_from(c: Seq<char>, start: int, width: int) -> Seq<Seq<char>>
    decreases c.len() - start,
{
    if start < 0 || width <= 0 || start >= c.len() {
        seq![]
    } else {
        let b = break_at(c, start, width);
        let n = skip_spaces(c, b);
        if n <= start || n > c.len() {
            seq![]
        } else {
            seq![c.subrange(start, b)] + wrap_from(c, n, width)
        }
    }
}

/// `text` wrapped to `width` characters per line (whole text when the width is 0).
pub open spec fn wrap_spec(text: Seq<char>, width: nat) -> Seq<Seq<char>> {
    if width == 0 {
        seq![text]
    } else if text.len() <= width {
        seq![text]
    } else {
        let l = wrap_from(text, 0, width as int);
        if l.len() == 0 {
            seq![Seq::empty()]
        } else {
            l
        }
    }
}

proof fn lemma_last_space(s: Seq<char>)
    ensures
        -1 <= last_space(s) < s.len(),
        last_space(s) >= 0 ==> s[last_space(s)] == ' ',
        last_space(s) < 0 ==> forall|j: int| 0 <= j < s.len() ==> s[j] != ' ',
        forall|j: int| last_space(s) < j < s.len() ==> s[j] != ' ',
    decreases s.len(),
{
    if s.len() > 0 && s.last() != ' ' {
        lemma_last_space(s.drop_last());
        assert forall|j: int| 0 <= j < s.len() - 1 implies s[j] == s.drop_last()[j] by {}
    }
}

proof fn lemma_skip_spaces(c: Seq<char>, i: int)
    requires
        0 <= i <= c.len(),
    ensures
        i <= skip_spaces(c, i) <= c.len(),
        i < c.len() && c[i] == ' ' ==> skip_spaces(c, i) > i,
    decreases c.len() - i,
{
    if i < c.len() && c[i] == ' ' {
        lemma_skip_spaces(c, i + 1);
    }
}

/// A line break always moves forward, and each line fits the width.
proof fn lemma_break(c: Seq<char>, start: int, width: int)
    requires
        0 <= start < c.len(),
        width > 0,
    ensures
        start <= break_at(c, start, width) <= c.len(),
        break_at(c, start, width) - start <= width,
        skip_spaces(c, break_at(c, start, width)) > start,
        skip_spaces(c, break_at(c, start, width)) <= c.len(),
{
    let end = if start + width < c.len() {
        start + width
    } else {
        c.len() as int
    };
    let w = c.subrange(start, end);
    lemma_last_space(w);
    let b = break_at(c, start, width);
    lemma_skip_spaces(c, b);
    if b == start {
        assert(w[0] == ' ');
        assert(c[start] == w[0]);
    }
}

/// Every wrapped line fits the width.
proof fn lemma_wrap_fits(c: Seq<char>, start: int, width: int)
    requires
        0 <= start,
        width > 0,
    ensures
        forall|i: int|
            0 <= i < wrap_from(c, start, width).len() ==> (#[trigger] wrap_from(c, start, width)[i]).len()
                <= width,
    decreases c.len() - start,
{
    if start < c.len() {
        lemma_break(c, start, width);
        let b = break_at(c, start, width);
        let n = skip_spaces(c, b);
        lemma_wrap_fits(c, n, width);
        let l = wrap_from(c, start, width);
        assert forall|i: int| 0 <= i < l.len() implies (#[trigger] l[i]).len() <= width by {
            if i > 0 {
                assert(l[i] == wrap_from(c, n, width)[i - 1]);
            }
        }
    }
}

/// Wrapped text is never empty, and no line is wider than the width.
pub proof fn law_wrap_fits(text: Seq<char>, width: nat)
    requires
        width > 0,
    ensures
        wrap_spec(text, width).len() >= 1,
        forall|i: int|
            0 <= i < wrap_spec(text, width).len() ==> (#[trigger] wrap_spec(text, width)[i]).len()
                <= width,
{
    if text.len() > width {
        lemma_wrap_fits(text, 0, width as int);
    }
}

/// The text views of strings.
pub open spec fn string_views(v: Seq<String>) -> Seq<Seq<char>> {
    Seq::new(v.len(), |i: int| v[i]@)
}

/// Wraps `text` into lines of at most `width` characters, breaking at the last space of
/// each window when there is one.
pub fn wrap_text(text: &str, width: usize) -> (r: Vec<String>)
    ensures
        string_views(r@) == wrap_spec(text@, width as nat),
{
    let c = chars_of(text);
    if width == 0 || c.len() <= width {
        let mut r: Vec<String> = Vec::new();
        r.push(string_from(&c, 0, c.len()));
        assert(c@.subrange(0, c@.len() as int) == c@);
        assert(string_views(r@) == seq![text@]);
        return r;
    }
    let mut r: Vec<String> = Vec::new();
    let mut start: usize = 0;
    while start < c.len()
        invariant
            width > 0,
            c@.len() > width,
            start <= c@.len(),
            string_views(r@) + wrap_from(c@, start as int, width as int) == wrap_from(
                c@,
                0,
                width as int,
            ),
        decreases c.len() - start,
    {
        proof {
            lemma_break(c@, start as int, width as int);
        }
        let end = if start < c.len() - width {
            start + width
        } else {
            c.len()
        };
        let mut b = end;
        if end < c.len() {
            let mut k = end;
            while k > start && c[k - 1] != ' '
                invariant
                    start <= k <= end,
                    end <= c@.len(),
                    last_space(c@.subrange(start as int, end as int)) == last_space(
                        c@.subrange(start as int, k as int),
                    ),
                decreases k,
            {
                assert(c@.subrange(start as int, k as int).drop_last() == c@.subrange(
                    start as int,
                    k - 1,
                ));
                k = k - 1;
            }
            if k > start {
                assert(c@.subrange(start as int, k as int).last() == c@[k - 1]);
                b = k - 1;
            } else {
                assert(c@.subrange(start as int, k as int).len() == 0);
            }
        }
        assert(b == break_at(c@, start as int, width as int));
        let ghost old_start = start;
        let ghost old_r = r@;
        r.push(string_from(&c, start, b));
        let mut n = b;
        proof {
            lemma_skip_spaces(c@, b as int);
        }
        while n < c.len() && c[n] == ' '
            invariant
                b <= n <= c@.len(),
                skip_spaces(c@, b as int) == skip_spaces(c@, n as int),
            decreases c.len() - n,
        {
            n = n + 1;
        }
        start = n;
        proof {
            assert(string_views(r@) == string_views(old_r).push(c@.subrange(old_start as int, b as int)));
            assert(wrap_from(c@, old_start as int, width as int) == seq![
                c@.subrange(old_start as int, b as int),
            ] + wrap_from(c@, n as int, width as int));
        }
    }
    assert(wrap_from(c@, start as int, width as int) == Seq::<Seq<char>>::empty());
    assert(string_views(r@) == wrap_from(c@, 0, width as int));
    if r.len() == 0 {
        r.push(String::new());
    }
    r
}

// ── Quality label ─────────────────────────────────────────────────────────────

/// Lossless container suffixes, lowercase.
pub open spec fn is_lossless(s: Seq<char>) -> bool {
    s == "flac"@ || s == "wav"@ || s == "alac"@ || s == "ape"@ || s == "aiff"@
}

/// The quality label of a track: the uppercase suffix of a lossless file, else its bit
/// rate as `<n>kbps`, else none.
pub open spec fn quality_spec(song: Song) -> Option<Seq<char>> {
    match song.suffix {
        Some(s) if is_lossless(lowercase(s@)) => Some(uppercase(s@)),
        _ => match song.bit_rate {
            Some(br) => Some(decimal(br as nat) + "kbps"@),
            None => None,
        },
    }
}

/// The quality label of a track (see `quality_spec`).
pub fn format_quality(song: &Song) -> (r: Option<String>)
    ensures
        match quality_spec(*song) {
            Some(q) => r.is_some() && r.unwrap()@ == q,
            None => r.is_none(),
        },
{
    if let Some(s) = &song.suffix {
        let low = to_lowercase(s.as_str());
        let lv = chars_of(low.as_str());
        let w = |lit: &str| -> (b: bool)
            ensures
                b == (lv@ == lit@),
        {
            let lt = chars_of(lit);
            crate::text::seq_eq(&lv, &lt)
        };
        if w("flac") || w("wav") || w("alac") || w("ape") || w("aiff") {
            return Some(to_uppercase(s.as_str()));
        }
    }
    match song.bit_rate {
        Some(br) => {
            let mut t = String::new();
            push_decimal(&mut t, br as u64);
            push_str(&mut t, "kbps");
            Some(t)
        },
        None => None,
    }
}

// ── Help popup ────────────────────────────────────────────────────────────────

/// A titled group of `(keys, description)` rows.
pub type HelpSection = (String, Vec<(String, String)>);

/// The text of a help section.
pub open spec fn section_view(s: HelpSection) -> (Seq<char>, Seq<(Seq<char>, Seq<char>)>) {
    (s.0@, Seq::new(s.1@.len(), |i: int| (s.1@[i].0@, s.1@[i].1@)))
}

/// The text of help sections.
pub open spec fn sections_view(v: Seq<HelpSection>) -> Seq<(Seq<char>, Seq<(Seq<char>, Seq<char>)>)> {
    Seq::new(v.len(), |i: int| section_view(v[i]))
}

fn row(k: &str, d: &str) -> (r: (String, String))
    ensures
        r.0@ == k@ && r.1@ == d@,
{
    let mut a = String::new();
    push_str(&mut a, k);
    let mut b = String::new();
    push_str(&mut b, d);
    (a, b)
}

fn title(t: &str) -> (r: String)
    ensures
        r@ == t@,
{
    let mut a = String::new();
    push_str(&mut a, t);
    a
}

/// The keybinding reference shown in the help popup.
pub open spec fn help_spec() -> Seq<(Seq<char>, Seq<(Seq<char>, Seq<char>)>)> {
    seq![
        ("Navigation"@, seq![
            ("j / k"@, "Scroll up / down"@),
            ("h / l"@, "Previous / next column (Browser)"@),
            ("1 / 2 / 3"@, "Go to Home / Browse / Now Playing"@),
            ("Tab"@, "Next tab"@),
            ("Shift-Tab"@, "Previous tab"@),
            ("/"@, "Search current column"@),
            ("Enter"@, "Select / expand"@),
        ]),
        ("Home Tab"@, seq![
            ("h / l"@, "Select album"@),
            ("j / k"@, "Navigate list"@),
            ("J / K"@, "Switch section"@),
            ("r"@, "Re-roll rediscover"@),
            ("Enter"@, "Go to artist in Browse"@),
        ]),
        ("Playback"@, seq![
            ("p / Space"@, "Play / pause"@),
            ("n / N"@, "Next / previous track"@),
            ("x / Z"@, "Shuffle / unshuffle"@),
            ("\u{2190} / \u{2192}"@, "Seek \u{b1}10s"@),
        ]),
        ("Queue"@, seq![
            ("a"@, "Add track to queue"@),
            ("A"@, "On artist / album add to queue"@),
            ("D"@, "Clear queue"@),
        ]),
        ("Volume & Display"@, seq![
            ("+ / -"@, "Volume up / down"@),
            ("t"@, "Toggle dynamic theme"@),
            ("L"@, "Toggle lyrics"@),
            ("V"@, "Toggle visualizer"@),
        ]),
        ("App"@, seq![("i"@, "Toggle this help"@), ("q"@, "Quit (or close help)"@)]),
    ]
}

/// The keybinding reference of the help popup, section by section.
pub fn sections() -> (r: Vec<HelpSection>)
    ensures
        sections_view(r@) == help_spec(),
{
    let mut r: Vec<HelpSection> = Vec::new();
    let mut nav: Vec<(String, String)> = Vec::new();
    nav.push(row("j / k", "Scroll up / down"));
    nav.push(row("h / l", "Previous / next column (Browser)"));
    nav.push(row("1 / 2 / 3", "Go to Home / Browse / Now Playing"));
    nav.push(row("Tab", "Next tab"));
    nav.push(row("Shift-Tab", "Previous tab"));
    nav.push(row("/", "Search current column"));
    nav.push(row("Enter", "Select / expand"));
    r.push((title("Navigation"), nav));
    let mut home: Vec<(String, String)> = Vec::new();
    home.push(row("h / l", "Select album"));
    home.push(row("j / k", "Navigate list"));
    home.push(row("J / K", "Switch section"));
    home.push(row("r", "Re-roll rediscover"));
    home.push(row("Enter", "Go to artist in Browse"));
    r.push((title("Home Tab"), home));
    let mut play: Vec<(String, String)> = Vec::new();
    play.push(row("p / Space", "Play / pause"));
    play.push(row("n / N", "Next / previous track"));
    play.push(row("x / Z", "Shuffle / unshuffle"));
    play.push(row("\u{2190} / \u{2192}", "Seek \u{b1}10s"));
    r.push((title("Playback"), play));
    let mut queue: Vec<(String, String)> = Vec::new();
    queue.push(row("a", "Add track to queue"));
    queue.push(row("A", "On artist / album add to queue"));
    queue.push(row("D", "Clear queue"));
    r.push((title("Queue"), queue));
    let mut vol: Vec<(String, String)> = Vec::new();
    vol.push(row("+ / -", "Volume up / down"));
    vol.push(row("t", "Toggle dynamic theme"));
    vol.push(row("L", "Toggle lyrics"));
    vol.push(row("V", "Toggle visualizer"));
    r.push((title("Volume & Display"), vol));
    let mut app: Vec<(String, String)> = Vec::new();
    app.push(row("i", "Toggle this help"));
    app.push(row("q", "Quit (or close help)"));
    r.push((title("App"), app));
    assert(sections_view(r@) =~~= help_spec());
    r
}

/// The playlist panel's keybinding reference.
pub open spec fn playlist_help_spec() -> Seq<(Seq<char>, Seq<(Seq<char>, Seq<char>)>)> {
    seq![
        ("Playlists"@, seq![
            ("Shift+P"@, "Open / close playlist panel"@),
            ("j / k"@, "Scroll playlist / track list"@),
            ("h / l"@, "Switch between lists"@),
            ("Enter"@, "Play playlist / track"@),
            ("Shift+A"@, "Append playlist to queue"@),
            (">"@, "Add track to playlist (Browser)"@),
            ("c"@, "Create playlist"@),
            ("r"@, "Rename playlist"@),
            ("X"@, "Delete playlist (with confirm)"@),
            ("<"@, "Remove track from playlist"@),
            ("Escape / q"@, "Close panel"@),
        ]),
    ]
}

/// The playlist panel's keybinding reference.
pub fn playlist_sections() -> (r: Vec<HelpSection>)
    ensures
        sections_view(r@) == playlist_help_spec(),
{
    let mut rows: Vec<(String, String)> = Vec::new();
    rows.push(row("Shift+P", "Open / close playlist panel"));
    rows.push(row("j / k", "Scroll playlist / track list"));
    rows.push(row("h / l", "Switch between lists"));
    rows.push(row("Enter", "Play playlist / track"));
    rows.push(row("Shift+A", "Append playlist to queue"));
    rows.push(row(">", "Add track to playlist (Browser)"));
    rows.push(row("c", "Create playlist"));
    rows.push(row("r", "Rename playlist"));
    rows.push(row("X", "Delete playlist (with confirm)"));
    rows.push(row("<", "Remove track from playlist"));
    rows.push(row("Escape / q", "Close panel"));
    let mut r: Vec<HelpSection> = Vec::new();
    r.push((title("Playlists"), rows));
    assert(sections_view(r@) =~~= playlist_help_spec());
    r
}


// ── List labels ───────────────────────────────────────────────────────────────

/// `n` spaces.
pub open spec fn spaces(n: nat) -> Seq<char> {
    Seq::new(n, |i: int| ' ')
}

/// `s` padded with spaces on the right to `w` characters (`{:<w}`).
pub open spec fn pad_right(s: Seq<char>, w: nat) -> Seq<char> {
    if s.len() >= w {
        s
    } else {
        s + spaces((w - s.len()) as nat)
    }
}

/// `s` padded with spaces on the left to `w` characters (`{:>w}`).
pub open spec fn pad_left(s: Seq<char>, w: nat) -> Seq<char> {
    if s.len() >= w {
        s
    } else {
        spaces((w - s.len()) as nat) + s
    }
}

fn push_spaces(out: &mut String, n: usize)
    ensures
        final(out)@ == old(out)@ + spaces(n as nat),
{
    let mut i: usize = 0;
    while i < n
        invariant
            i <= n,
            out@ == old(out)@ + spaces(i as nat),
        decreases n - i,
    {
        push_char(out, ' ');
        assert(spaces((i + 1) as nat) =~= spaces(i as nat).push(' '));
        i = i + 1;
    }
}

/// Appends `s` padded on the right to `w` characters.
fn push_padded_right(out: &mut String, s: &str, w: usize)
    ensures
        final(out)@ == old(out)@ + pad_right(s@, w as nat),
{
    let v = chars_of(s);
    push_str(out, s);
    if v.len() < w {
        push_spaces(out, w - v.len());
    }
}

/// Appends `s` padded on the left to `w` characters.
fn push_padded_left(out: &mut String, s: &str, w: usize)
    ensures
        final(out)@ == old(out)@ + pad_left(s@, w as nat),
{
    let v = chars_of(s);
    if v.len() < w {
        push_spaces(out, w - v.len());
    }
    push_str(out, s);
}

/// An album in the browser: its name, with the year in brackets when known.
pub open spec fn album_label_spec(a: Album) -> Seq<char> {
    match a.year {
        Some(y) => a.name@ + " ("@ + decimal(y as nat) + ")"@,
        None => a.name@,
    }
}

/// The browser label of an album (see `album_label_spec`).
pub fn album_label(a: &Album) -> (r: String)
    ensures
        r@ == album_label_spec(*a),
{
    let mut r = String::new();
    push_str(&mut r, a.name.as_str());
    if let Some(y) = a.year {
        push_str(&mut r, " (");
        push_decimal(&mut r, y as u64);
        push_str(&mut r, ")");
    }
    r
}

/// A track in the browser: the track number right-aligned in two columns with a dot,
/// the title, and two spaces and the duration (`m:ss`) when known.
pub open spec fn track_label_spec(s: Song) -> Seq<char> {
    (match s.track {
        Some(n) => pad_left(decimal(n as nat), 2) + ". "@,
        None => seq![],
    }) + s.title@ + (match s.duration {
        Some(d) => "  "@ + clock_label(d as nat),
        None => seq![],
    })
}

/// The browser label of a track (see `track_label_spec`).
pub fn track_label(s: &Song) -> (r: String)
    ensures
        r@ == track_label_spec(*s),
{
    let mut r = String::new();
    if let Some(n) = s.track {
        let d = crate::text::decimal_string(n as u64);
        push_padded_left(&mut r, d.as_str(), 2);
        push_str(&mut r, ". ");
    }
    push_str(&mut r, s.title.as_str());
    if let Some(d) = s.duration {
        push_str(&mut r, "  ");
        let c = format_clock(d as u64);
        push_str(&mut r, c.as_str());
    }
    assert(r@ =~= track_label_spec(*s));
    r
}

/// A queue row: track number (three columns and a dot, or four spaces), title cut and
/// padded to 40 columns, artist cut and padded to 25, duration right-aligned in five
/// (or blank), two spaces between the columns.
pub open spec fn queue_label_spec(s: Song) -> Seq<char> {
    let num = match s.track {
        Some(n) => pad_left(decimal(n as nat), 3) + "."@,
        None => "    "@,
    };
    let artist = match s.artist {
        Some(a) => a@,
        None => seq![],
    };
    let dur = match s.duration {
        Some(d) => pad_left(clock_label(d as nat), 5),
        None => "     "@,
    };
    num + "  "@ + pad_right(trunc_spec(s.title@, 40), 40) + "  "@ + pad_right(trunc_spec(artist, 25), 25)
        + "  "@ + dur
}

/// The queue row of a song (see `queue_label_spec`).
pub fn queue_label(s: &Song) -> (r: String)
    ensures
        r@ == queue_label_spec(*s),
{
    let mut r = String::new();
    match s.track {
        Some(n) => {
            let d = crate::text::decimal_string(n as u64);
            push_padded_left(&mut r, d.as_str(), 3);
            push_str(&mut r, ".");
        },
        None => push_str(&mut r, "    "),
    }
    push_str(&mut r, "  ");
    let t = trunc(s.title.as_str(), 40);
    push_padded_right(&mut r, t.as_str(), 40);
    push_str(&mut r, "  ");
    let artist = match &s.artist {
        Some(a) => trunc(a.as_str(), 25),
        None => trunc("", 25),
    };
    push_padded_right(&mut r, artist.as_str(), 25);
    push_str(&mut r, "  ");
    match s.duration {
        Some(d) => {
            let c = format_clock(d as u64);
            push_padded_left(&mut r, c.as_str(), 5);
        },
        None => push_str(&mut r, "     "),
    }
    proof {
        reveal_strlit("");
        assert(""@ == Seq::<char>::empty());
    }
    assert(r@ =~= queue_label_spec(*s));
    r
}


// ── Status bar ────────────────────────────────────────────────────────────────

/// `s` without every leading repetition of the non-empty prefix `p`.
pub open spec fn strip_prefixes(s: Seq<char>, p: Seq<char>) -> Seq<char>
    decreases s.len(),
{
    if p.len() > 0 && s.len() >= p.len() && s.take(p.len() as int) == p {
        strip_prefixes(s.skip(p.len() as int), p)
    } else {
        s
    }
}

/// Drops every leading copy of `p` (non-empty) from `v[from..]`; returns where the rest
/// starts.
fn skip_prefixes(v: &Vec<char>, p: &Vec<char>, from: usize) -> (r: usize)
    requires
        p@.len() > 0,
        from <= v@.len(),
    ensures
        from <= r <= v@.len(),
        v@.skip(r as int) == strip_prefixes(v@.skip(from as int), p@),
{
    let mut i = from;
    let vl = v.len();
    loop
        invariant
            vl == v@.len(),
            p@.len() > 0,
            from <= i <= v@.len(),
            strip_prefixes(v@.skip(i as int), p@) == strip_prefixes(v@.skip(from as int), p@),
        decreases v@.len() - i,
    {
        let n = p.len();
        if v.len() - i < n {
            return i;
        }
        let mut k: usize = 0;
        while k < n
            invariant
                k <= n == p@.len(),
                vl == v@.len(),
                p@.len() > 0,
                from <= i,
                i + n <= v@.len(),
                strip_prefixes(v@.skip(i as int), p@) == strip_prefixes(v@.skip(from as int), p@),
                forall|j: int| 0 <= j < k ==> v@[i + j] == p@[j],
            decreases n - k,
        {
            if v[i + k] != p[k] {
                proof {
                    assert(v@.skip(i as int).take(n as int)[k as int] != p@[k as int]);
                    assert(v@.skip(i as int).take(n as int) != p@);
                }
                return i;
            }
            k = k + 1;
        }
        proof {
            assert(v@.skip(i as int).take(n as int) =~= p@);
            assert(v@.skip(i as int).skip(n as int) =~= v@.skip(i + n));
        }
        i = i + n;
    }
}

/// The server as the status bar names it: the URL without its leading `http://`, then
/// without its leading `https://` (every repetition of each).
pub open spec fn server_host_spec(url: Seq<char>) -> Seq<char> {
    strip_prefixes(strip_prefixes(url, "http://"@), "https://"@)
}

/// The status bar's server name (see `server_host_spec`).
pub fn server_host(url: &str) -> (r: String)
    ensures
        r@ == server_host_spec(url@),
{
    let v = chars_of(url);
    let http = chars_of("http://");
    let https = chars_of("https://");
    proof {
        reveal_strlit("http://");
        reveal_strlit("https://");
        assert(v@.skip(0) =~= v@);
    }
    let a = skip_prefixes(&v, &http, 0);
    let b = skip_prefixes(&v, &https, a);
    string_from(&v, b, v.len())
}

} // verus!
