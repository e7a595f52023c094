//! Album art in terminals that speak the Kitty graphics protocol: escape sequences,
//! the cell-size reply, art strip sizing, and when the cover must be sent, shown again,
//! or cleared.
use vstd::prelude::*;
use crate::app::Tab;
use crate::layout::Rect;
use crate::text::{
    chars_of, decimal, parse_u64, parse_u64_range, push_char, push_chars, push_decimal, push_str,
    str_eq,
};
use std::io::Write;

verus! {

// ── Escape sequences ──────────────────────────────────────────────────────────

/// A Kitty APC sequence around `payload`; inside tmux, wrapped for DCS passthrough with
/// the inner escapes doubled.
pub open spec fn apc_spec(payload: Seq<char>, in_tmux: bool) -> Seq<char> {
    if in_tmux {
        "\x1bPtmux;\x1b\x1b_G"@ + payload + "\x1b\x1b\\\x1b\\"@
    } else {
        "\x1b_G"@ + payload + "\x1b\\"@
    }
}

/// Builds a Kitty APC sequence (see `apc_spec`).
pub fn apc(payload: &str, in_tmux: bool) -> (s: String)
    ensures
        s@ == apc_spec(payload@, in_tmux),
{
    let mut s = String::new();
    if in_tmux {
        push_str(&mut s, "\x1bPtmux;\x1b\x1b_G");
        push_str(&mut s, payload);
        push_str(&mut s, "\x1b\x1b\\\x1b\\");
    } else {
        push_str(&mut s, "\x1b_G");
        push_str(&mut s, payload);
        push_str(&mut s, "\x1b\\");
    }
    s
}

/// The combining diacritics that number the rows of a Unicode-placeholder image.
pub open spec fn row_diacritics() -> Seq<char> {
    seq![
        '\u{0305}', '\u{030D}', '\u{030E}', '\u{0310}', '\u{0312}', '\u{033D}', '\u{033E}',
        '\u{033F}', '\u{0346}', '\u{034A}', '\u{034B}', '\u{034C}', '\u{0350}', '\u{0351}',
        '\u{0352}', '\u{0357}', '\u{035B}', '\u{0363}', '\u{0364}', '\u{0365}', '\u{0366}',
        '\u{0367}', '\u{0368}', '\u{0369}', '\u{036A}', '\u{036B}', '\u{036C}', '\u{036D}',
        '\u{036E}', '\u{036F}', '\u{0483}', '\u{0484}',
    ]
}

/// The diacritic of row `i`, the first one past the table.
pub open spec fn row_diacritic(i: int) -> char {
    if 0 <= i < 32 {
        row_diacritics()[i]
    } else {
        '\u{0305}'
    }
}

/// `n` placeholder cells.
pub open spec fn placeholders(n: nat) -> Seq<char> {
    Seq::new(n, |i: int| '\u{10EEEE}')
}

/// One row of a Unicode-placeholder image: the image id as the foreground colour, the
/// placeholder cell with the row's diacritic, the remaining cells, a colour reset.
pub open spec fn placeholder_row_spec(cols: u16, image_id: u32, row_index: int) -> Seq<char> {
    let r = ((image_id >> 16u32) & 0xff) as nat;
    let g = ((image_id >> 8u32) & 0xff) as nat;
    let b = (image_id & 0xff) as nat;
    "\x1b[38;2;"@ + decimal(r) + seq![';'] + decimal(g) + seq![';'] + decimal(b) + seq!['m']
        + seq!['\u{10EEEE}', row_diacritic(row_index)] + placeholders(
        if cols >= 1 {
            (cols - 1) as nat
        } else {
            0
        },
    ) + "\x1b[0m"@
}

fn diacritic_of(i: usize) -> (c: char)
    ensures
        c == row_diacritic(i as int),
{
    let t: [char; 32] = [
        '\u{0305}', '\u{030D}', '\u{030E}', '\u{0310}', '\u{0312}', '\u{033D}', '\u{033E}',
        '\u{033F}', '\u{0346}', '\u{034A}', '\u{034B}', '\u{034C}', '\u{0350}', '\u{0351}',
        '\u{0352}', '\u{0357}', '\u{035B}', '\u{0363}', '\u{0364}', '\u{0365}', '\u{0366}',
        '\u{0367}', '\u{0368}', '\u{0369}', '\u{036A}', '\u{036B}', '\u{036C}', '\u{036D}',
        '\u{036E}', '\u{036F}', '\u{0483}', '\u{0484}',
    ];
    assert(t@ == row_diacritics());
    if i < 32 {
        t[i]
    } else {
        '\u{0305}'
    }
}

/// One row of placeholder text (see `placeholder_row_spec`).
pub fn placeholder_row(cols: u16, image_id: u32, row_index: usize) -> (s: String)
    ensures
        s@ == placeholder_row_spec(cols, image_id, row_index as int),
{
    let r = (image_id >> 16u32) & 0xff;
    let g = (image_id >> 8u32) & 0xff;
    let b = image_id & 0xff;
    let mut s = String::new();
    push_str(&mut s, "\x1b[38;2;");
    push_decimal(&mut s, r as u64);
    push_char(&mut s, ';');
    push_decimal(&mut s, g as u64);
    push_char(&mut s, ';');
    push_decimal(&mut s, b as u64);
    push_char(&mut s, 'm');
    push_char(&mut s, '\u{10EEEE}');
    push_char(&mut s, diacritic_of(row_index));
    let ghost head = s@;
    proof {
        let rr = ((image_id >> 16u32) & 0xff) as nat;
        let gg = ((image_id >> 8u32) & 0xff) as nat;
        let bb = (image_id & 0xff) as nat;
        assert(head =~= "\x1b[38;2;"@ + decimal(rr) + seq![';'] + decimal(gg) + seq![';'] + decimal(bb)
            + seq!['m'] + seq!['\u{10EEEE}', row_diacritic(row_index as int)]);
    }
    let mut k: u16 = 1;
    while k < cols
        invariant
            1 <= k,
            k <= cols || cols == 0,
            cols == 0 ==> k == 1,
            s@ == head + placeholders((k - 1) as nat),
        decreases cols - k,
    {
        push_char(&mut s, '\u{10EEEE}');
        assert(placeholders(k as nat) == placeholders((k - 1) as nat).push('\u{10EEEE}'));
        k = k + 1;
    }
    proof {
        if cols == 0 {
            assert(placeholders(0) == Seq::<char>::empty());
        } else {
            assert(k == cols);
        }
        assert(s@ == head + placeholders(
            if cols >= 1 {
                (cols - 1) as nat
            } else {
                0
            },
        ));
    }
    push_str(&mut s, "\x1b[0m");
    assert(s@ == head + placeholders(
        if cols >= 1 {
            (cols - 1) as nat
        } else {
            0
        },
    ) + "\x1b[0m"@);
    s
}

// ── Cell size reply ───────────────────────────────────────────────────────────

/// `s` without its leading `c` characters.
pub open spec fn strip_leading(s: Seq<char>, c: char) -> Seq<char>
    decreases s.len(),
{
    if s.len() > 0 && s[0] == c {
        strip_leading(s.drop_first(), c)
    } else {
        s
    }
}

/// Index of the last `c` in `s`, or -1.
pub open spec fn rfind(s: Seq<char>, c: char) -> int
    decreases s.len(),
{
    if s.len() == 0 {
        -1
    } else if s.last() == c {
        s.len() - 1
    } else {
        rfind(s.drop_last(), c)
    }
}

/// `str::parse::<u16>()`.
pub open spec fn parse_u16(s: Seq<char>) -> Option<u16> {
    match parse_u64(s) {
        Some(v) => if v <= 0xffff {
            Some(v as u16)
        } else {
            None
        },
        None => None,
    }
}

/// `<height>;<width>` read as `(width, height)`, both non-zero.
pub open spec fn cell_size_nums(nums: Seq<char>) -> Option<(u16, u16)> {
    let semi = crate::text::find_char(nums, ';');
    if semi < 0 {
        None
    } else {
        match (parse_u16(nums.take(semi)), parse_u16(nums.skip(semi + 1))) {
            (Some(h), Some(w)) => if w == 0 || h == 0 {
                None
            } else {
                Some((w, h))
            },
            _ => None,
        }
    }
}

/// `(width, height)` in pixels from the reply `ESC[6;<height>;<width>t` to `CSI 16 t`
/// (leading escapes and brackets skipped; zero sizes rejected).
pub open spec fn cell_size_spec(response: Seq<char>) -> Option<(u16, u16)> {
    let s = strip_leading(strip_leading(response, '\x1b'), '[');
    if s.len() < 2 || s[0] != '6' || s[1] != ';' {
        None
    } else {
        let rest = s.skip(2);
        let t = rfind(rest, 't');
        if t < 0 {
            None
        } else {
            cell_size_nums(rest.take(t))
        }
    }
}

fn parse_u16_range(v: &Vec<char>, from: usize, to: usize) -> (r: Option<u16>)
    requires
        from <= to <= v.len(),
    ensures
        r == parse_u16(v@.subrange(from as int, to as int)),
{
    match parse_u64_range(v, from, to) {
        Some(x) => if x <= 0xffff {
            Some(x as u16)
        } else {
            None
        },
        None => None,
    }
}

/// Index of the first character of `v` at or after `i` that is not `c`, with the
/// stripped text.
fn skip_char(v: &Vec<char>, i: usize, c: char) -> (j: usize)
    requires
        i <= v@.len(),
    ensures
        i <= j <= v@.len(),
        strip_leading(v@.skip(i as int), c) == v@.skip(j as int),
{
    let mut j = i;
    while j < v.len() && v[j] == c
        invariant
            i <= j <= v@.len(),
            strip_leading(v@.skip(i as int), c) == strip_leading(v@.skip(j as int), c),
        decreases v.len() - j,
    {
        assert(v@.skip(j as int).drop_first() == v@.skip(j + 1));
        j = j + 1;
    }
    j
}

/// One past the last `t` in `v[start..end]`, or `start` when there is none.
fn rfind_t(v: &Vec<char>, start: usize, end: usize) -> (t: usize)
    requires
        start <= end <= v@.len(),
    ensures
        start <= t <= end,
        t == start ==> rfind(v@.subrange(start as int, end as int), 't') < 0,
        t > start ==> rfind(v@.subrange(start as int, end as int), 't') == t - 1 - start,
{
    let mut t = end;
    while t > start && v[t - 1] != 't'
        invariant
            start <= t <= end <= v@.len(),
            rfind(v@.subrange(start as int, end as int), 't') == rfind(
                v@.subrange(start as int, t as int),
                't',
            ),
        decreases t,
    {
        assert(v@.subrange(start as int, t as int).drop_last() == v@.subrange(start as int, t - 1));
        t = t - 1;
    }
    if t > start {
        assert(v@.subrange(start as int, t as int).last() == v@[t - 1]);
    }
    t
}

/// Index of the first `;` in `v[start..end]` (relative to `v`), or `end`.
fn find_semi(v: &Vec<char>, start: usize, end: usize) -> (k: usize)
    requires
        start <= end <= v@.len(),
    ensures
        start <= k <= end,
        k == end ==> crate::text::find_char(v@.subrange(start as int, end as int), ';') < 0,
        k < end ==> crate::text::find_char(v@.subrange(start as int, end as int), ';') == k - start,
{
    let ghost nums = v@.subrange(start as int, end as int);
    let mut k = start;
    while k < end && v[k] != ';'
        invariant
            start <= k <= end <= v@.len(),
            forall|j: int| start <= j < k ==> v@[j] != ';',
        decreases end - k,
    {
        k = k + 1;
    }
    proof {
        crate::text::lemma_find_char(nums, ';');
        let f = crate::text::find_char(nums, ';');
        if f >= 0 {
            assert(nums[f] == v@[start + f]);
        }
        if k < end {
            assert(nums[k - start] == ';');
        }
    }
    k
}

/// Reads `<height>;<width>` from `v[start..end]` (see `cell_size_nums`).
fn cell_size_from(v: &Vec<char>, start: usize, end: usize) -> (r: Option<(u16, u16)>)
    requires
        start <= end <= v@.len(),
    ensures
        r == cell_size_nums(v@.subrange(start as int, end as int)),
{
    let semi = find_semi(v, start, end);
    if semi == end {
        return None;
    }
    proof {
        let nums = v@.subrange(start as int, end as int);
        let f = semi - start;
        assert(nums.take(f) == v@.subrange(start as int, semi as int));
        assert(nums.skip(f + 1) == v@.subrange(semi + 1, end as int));
    }
    let h = parse_u16_range(v, start, semi);
    let w = parse_u16_range(v, semi + 1, end);
    match (h, w) {
        (Some(h), Some(w)) => if w == 0 || h == 0 {
            None
        } else {
            Some((w, h))
        },
        _ => None,
    }
}

/// Reads the terminal's reply to `CSI 16 t` (see `cell_size_spec`).
pub fn parse_cell_size_response(response: &str) -> (r: Option<(u16, u16)>)
    ensures
        r == cell_size_spec(response@),
{
    let v = chars_of(response);
    assert(v@.skip(0) == v@);
    let i1 = skip_char(&v, 0, '\x1b');
    let i = skip_char(&v, i1, '[');
    let ghost s = v@.skip(i as int);
    if v.len() - i < 2 || v[i] != '6' || v[i + 1] != ';' {
        return None;
    }
    let start = i + 2;
    assert(s.skip(2) == v@.subrange(start as int, v@.len() as int));
    let t = rfind_t(&v, start, v.len());
    if t == start {
        return None;
    }
    let tp = t - 1;
    assert(s.skip(2).take(tp - start) == v@.subrange(start as int, tp as int));
    cell_size_from(&v, start, tp)
}

// ── Support probe ─────────────────────────────────────────────────────────────

/// Whether the terminal's reply to the graphics query (image id 31) reports success.
pub fn kitty_query_answered(reply: &str) -> (b: bool)
    ensures
        b == crate::text::contains_seq(reply@, "_Gi=31;OK"@),
{
    let v = chars_of(reply);
    let w = chars_of("_Gi=31;OK");
    crate::text::contains(&v, &w)
}

// ── Art strip sizing ──────────────────────────────────────────────────────────

/// Thumbnail size `(columns, rows)` for an art strip `strip_rows` tall: square in cell
/// count, `strip_rows` by `strip_rows` (the cell pixel size is not used).
pub fn art_strip_thumbnail_size(cell_px: Option<(u16, u16)>, strip_rows: u16) -> (r: (u16, u16))
    ensures
        r == (strip_rows, strip_rows),
{
    (strip_rows, strip_rows)
}

/// How many thumbnails `thumb_cols` wide, `gap_cols` apart, fit across `terminal_cols`
/// columns (two kept free); at least one.
pub fn visible_thumbnail_count(terminal_cols: u16, thumb_cols: u16, gap_cols: u16) -> (n: usize)
    requires
        thumb_cols + gap_cols <= 0xffff,
    ensures
        n == (if thumb_cols + gap_cols == 0 {
            1
        } else {
            let c = (if terminal_cols >= 2 {
                terminal_cols - 2
            } else {
                0
            }) / (thumb_cols + gap_cols);
            if c >= 1 {
                c
            } else {
                1
            }
        }),
        n >= 1,
{
    if thumb_cols + gap_cols == 0 {
        return 1;
    }
    let count = (terminal_cols.saturating_sub(2) / (thumb_cols + gap_cols)) as usize;
    if count >= 1 {
        count
    } else {
        1
    }
}

// ── When to send the cover ────────────────────────────────────────────────────

/// What the terminal knows of the NowPlaying cover.
pub struct ArtDisplay {
    /// The cover id and area of the last full transmission.
    pub last_rendered: Option<(String, Rect)>,
    /// Whether the cover is visible now.
    pub displayed: bool,
    /// The tab of the previous frame.
    pub last_tab: Tab,
}

/// What to do with the cover after a frame was drawn.
#[derive(Clone, Copy, PartialEq, Eq, Structural, Debug)]
pub enum ArtStep {
    Nothing,
    /// The terminal still holds the image: show it again in this area.
    Redisplay(Rect),
    /// Encode and send the cached cover for this area.
    Transmit(Rect),
    /// Remove the visible placement.
    Clear,
}

/// The last transmission was of cover `id` into `rect`.
pub open spec fn same_art(last: Option<(String, Rect)>, id: Seq<char>, rect: Rect) -> bool {
    match last {
        Some((lid, lr)) => lid@ == id && lr == rect,
        None => false,
    }
}

/// The step for a frame on tab `tab`, with the cached cover `art` (its id) and the art
/// area `rect`.
pub open spec fn art_step_spec(d: ArtDisplay, kitty: bool, tab: Tab, art: Option<Seq<char>>, rect: Rect) -> ArtStep {
    if !kitty {
        ArtStep::Nothing
    } else if tab == Tab::NowPlaying {
        match art {
            Some(id) => if same_art(d.last_rendered, id, rect) {
                if d.displayed {
                    ArtStep::Nothing
                } else {
                    ArtStep::Redisplay(rect)
                }
            } else {
                ArtStep::Transmit(rect)
            },
            None => if d.displayed {
                ArtStep::Clear
            } else {
                ArtStep::Nothing
            },
        }
    } else if d.last_tab == Tab::NowPlaying && d.displayed {
        ArtStep::Clear
    } else {
        ArtStep::Nothing
    }
}

impl ArtDisplay {
    /// Nothing sent yet.
    pub fn new(tab: Tab) -> (d: Self)
        ensures
            d.last_rendered.is_none(),
            !d.displayed,
            d.last_tab == tab,
    {
        ArtDisplay { last_rendered: None, displayed: false, last_tab: tab }
    }

    /// The step after drawing a frame (see `art_step_spec`).
    pub fn frame_step(&self, kitty: bool, tab: Tab, art: Option<&str>, rect: Rect) -> (s: ArtStep)
        ensures
            s == art_step_spec(
                *self,
                kitty,
                tab,
                match art {
                    Some(a) => Some(a@),
                    None => None,
                },
                rect,
            ),
    {
        if !kitty {
            return ArtStep::Nothing;
        }
        if tab == Tab::NowPlaying {
            match art {
                Some(id) => {
                    let same = match &self.last_rendered {
                        Some((lid, lr)) => crate::text::str_eq(lid.as_str(), id) && *lr == rect,
                        None => false,
                    };
                    if same {
                        if self.displayed {
                            ArtStep::Nothing
                        } else {
                            ArtStep::Redisplay(rect)
                        }
                    } else {
                        ArtStep::Transmit(rect)
                    }
                },
                None => if self.displayed {
                    ArtStep::Clear
                } else {
                    ArtStep::Nothing
                },
            }
        } else if self.last_tab == Tab::NowPlaying && self.displayed {
            ArtStep::Clear
        } else {
            ArtStep::Nothing
        }
    }

    /// Records how the step went (`ok`: the terminal write succeeded; a clear always
    /// counts as done) and the frame's tab.
    pub fn finish_frame(&mut self, step: ArtStep, ok: bool, art: Option<String>, tab: Tab)
        ensures
            final(self).last_tab == tab,
            match step {
                ArtStep::Nothing => final(self).displayed == old(self).displayed
                    && final(self).last_rendered == old(self).last_rendered,
                ArtStep::Redisplay(_) => final(self).displayed == (old(self).displayed || ok)
                    && final(self).last_rendered == old(self).last_rendered,
                ArtStep::Transmit(r) => if ok && art.is_some() {
                    final(self).displayed && final(self).last_rendered == Some((art.unwrap(), r))
                } else {
                    final(self).displayed == old(self).displayed && final(self).last_rendered
                        == old(self).last_rendered
                },
                ArtStep::Clear => !final(self).displayed && (if tab == Tab::NowPlaying {
                    final(self).last_rendered.is_none()
                } else {
                    final(self).last_rendered == old(self).last_rendered
                }),
            },
    {
        match step {
            ArtStep::Nothing => {},
            ArtStep::Redisplay(_) => {
                if ok {
                    self.displayed = true;
                }
            },
            ArtStep::Transmit(r) => {
                if ok {
                    if let Some(id) = art {
                        self.last_rendered = Some((id, r));
                        self.displayed = true;
                    }
                }
            },
            ArtStep::Clear => {
                if tab == Tab::NowPlaying {
                    self.last_rendered = None;
                }
                self.displayed = false;
            },
        }
        self.last_tab = tab;
    }

    /// The terminal was resized: a visible cover must be cleared and sent again.
    pub fn on_resize(&mut self, kitty: bool) -> (clear: bool)
        ensures
            clear == (kitty && old(self).displayed),
            clear ==> !final(self).displayed && final(self).last_rendered.is_none(),
            !clear ==> final(self).displayed == old(self).displayed && final(self).last_rendered
                == old(self).last_rendered,
            final(self).last_tab == old(self).last_tab,
    {
        if kitty && self.displayed {
            self.displayed = false;
            self.last_rendered = None;
            true
        } else {
            false
        }
    }
}


// ── Image payloads ────────────────────────────────────────────────────────────

/// What `image::load_from_memory` followed by `DynamicImage::resize` (Lanczos3, aspect
/// ratio kept, fitting within `w` x `h`) and `to_rgba8` gives for encoded image bytes:
/// `(width, height, RGBA bytes)`, `None` when the bytes do not decode.
pub uninterp spec fn fit_rgba(bytes: Seq<u8>, w: u32, h: u32) -> Option<(u32, u32, Seq<u8>)>;

/// The same as `fit_rgba` with `DynamicImage::resize_exact` (exactly `w` x `h`).
pub uninterp spec fn exact_rgba(bytes: Seq<u8>, w: u32, h: u32) -> Option<(u32, u32, Seq<u8>)>;

/// What a `flate2` zlib encoder at the default level gives for `raw`; `None` when the
/// encoder reports an error.
pub uninterp spec fn zlib_of(raw: Seq<u8>) -> Option<Seq<u8>>;

/// The standard base64 encoding, with padding, of `bytes`.
pub uninterp spec fn base64_of(bytes: Seq<u8>) -> Seq<char>;

/// `image::load_from_memory`, then `DynamicImage::resize` to fit `w` x `h` with the
/// Lanczos3 filter, then `to_rgba8`: the pixels and their dimensions, named `fit_rgba`;
/// `None` when decoding fails. The bound on the size keeps the pixel buffer small.
#[verifier::external_body]
fn decode_fit(bytes: &[u8], w: u32, h: u32) -> (r: Option<(u32, u32, Vec<u8>)>)
    requires
        w <= 8192,
        h <= 8192,
    ensures
        match r {
            Some(t) => fit_rgba(bytes@, w, h) == Some((t.0, t.1, t.2@)),
            None => fit_rgba(bytes@, w, h) is None,
        },
{
    let img = image::load_from_memory(bytes).ok()?;
    let rgba = img.resize(w, h, image::imageops::FilterType::Lanczos3).to_rgba8();
    let (pw, ph) = rgba.dimensions();
    Some((pw, ph, rgba.into_raw()))
}

/// `image::load_from_memory`, then `DynamicImage::resize_exact` to `w` x `h` with the
/// Lanczos3 filter (whose documentation gives the new dimensions as exactly `w` and `h`),
/// then `to_rgba8`: named `exact_rgba`; `None` when decoding fails.
#[verifier::external_body]
fn decode_exact(bytes: &[u8], w: u32, h: u32) -> (r: Option<(u32, u32, Vec<u8>)>)
    requires
        w <= 8192,
        h <= 8192,
    ensures
        match r {
            Some(t) => exact_rgba(bytes@, w, h) == Some((t.0, t.1, t.2@)) && t.0 == w && t.1 == h,
            None => exact_rgba(bytes@, w, h) is None,
        },
{
    let img = image::load_from_memory(bytes).ok()?;
    let rgba = img.resize_exact(w, h, image::imageops::FilterType::Lanczos3).to_rgba8();
    let (pw, ph) = rgba.dimensions();
    Some((pw, ph, rgba.into_raw()))
}

/// `flate2::write::ZlibEncoder` at `Compression::default()` over a `Vec`: writes `raw`
/// and finishes; the output is named `zlib_of`. Like every `Vec`, it holds at most
/// `isize::MAX` bytes.
#[verifier::external_body]
fn zlib_compress(raw: &[u8]) -> (r: Option<Vec<u8>>)
    ensures
        match r {
            Some(c) => zlib_of(raw@) == Some(c@) && c@.len() <= isize::MAX,
            None => zlib_of(raw@) is None,
        },
{
    let mut enc = flate2::write::ZlibEncoder::new(Vec::new(), flate2::Compression::default());
    enc.write_all(raw).ok()?;
    enc.finish().ok()
}

/// `base64::engine::general_purpose::STANDARD.encode`: the padded standard encoding, named
/// `base64_of`. The encoder panics only when the output length overflows `usize`, which
/// the bound on the input rules out.
#[verifier::external_body]
fn base64_standard(bytes: &[u8]) -> (s: String)
    requires
        bytes@.len() <= isize::MAX,
    ensures
        s@ == base64_of(bytes@),
{
    base64::Engine::encode(&base64::engine::general_purpose::STANDARD, bytes)
}

// ── Chunked transmission ──────────────────────────────────────────────────────

/// How many chunks of at most 4096 characters a payload of `n` characters is sent in.
pub open spec fn chunk_count(n: nat) -> nat
    decreases n,
{
    if n == 0 {
        0
    } else if n <= 4096 {
        1
    } else {
        1 + chunk_count((n - 4096) as nat)
    }
}

/// Chunk `i` of `p`: the (at most) 4096 characters from `4096 * i`.
pub open spec fn chunk_of(p: Seq<char>, i: nat) -> Seq<char> {
    let start: int = (4096 * i) as int;
    let end: int = if start + 4096 <= p.len() {
        start + 4096
    } else {
        p.len() as int
    };
    p.subrange(start, end)
}

/// The APC sequence carrying chunk `i` of `p`: the first one starts with the control keys
/// `head`; `m=1` while more chunks follow, `m=0` on the last.
pub open spec fn chunk_apc(p: Seq<char>, head: Seq<char>, i: nat, in_tmux: bool) -> Seq<char> {
    let m = if i + 1 == chunk_count(p.len()) {
        '0'
    } else {
        '1'
    };
    if i == 0 {
        apc_spec(head + "m="@ + seq![m] + ",q=2;"@ + chunk_of(p, i), in_tmux)
    } else {
        apc_spec("m="@ + seq![m] + ";"@ + chunk_of(p, i), in_tmux)
    }
}

/// The sequences of chunks `0..k`.
pub open spec fn chunks_upto(p: Seq<char>, head: Seq<char>, in_tmux: bool, k: nat) -> Seq<char>
    decreases k,
{
    if k == 0 {
        seq![]
    } else {
        chunks_upto(p, head, in_tmux, (k - 1) as nat) + chunk_apc(p, head, (k - 1) as nat, in_tmux)
    }
}

/// A whole payload sent in chunks.
pub open spec fn transmit_spec(p: Seq<char>, head: Seq<char>, in_tmux: bool) -> Seq<char> {
    chunks_upto(p, head, in_tmux, chunk_count(p.len()))
}

/// The chunks `0..k` of `p`, joined.
pub open spec fn chunks_joined(p: Seq<char>, k: nat) -> Seq<char>
    decreases k,
{
    if k == 0 {
        seq![]
    } else {
        chunks_joined(p, (k - 1) as nat) + chunk_of(p, (k - 1) as nat)
    }
}

proof fn lemma_chunk_count(n: nat)
    ensures
        4096 * chunk_count(n) >= n,
        chunk_count(n) > 0 ==> 4096 * (chunk_count(n) - 1) < n,
        n > 0 ==> chunk_count(n) > 0,
    decreases n,
{
    if n > 4096 {
        lemma_chunk_count((n - 4096) as nat);
    }
}

proof fn lemma_chunks_prefix(p: Seq<char>, k: nat)
    requires
        k <= chunk_count(p.len()),
    ensures
        chunks_joined(p, k) == p.take(if 4096 * k <= p.len() {
            (4096 * k) as int
        } else {
            p.len() as int
        }),
    decreases k,
{
    lemma_chunk_count(p.len());
    if k == 0 {
        assert(p.take(0) =~= Seq::<char>::empty());
    } else {
        let j = (k - 1) as nat;
        lemma_chunks_prefix(p, j);
        assert(4096 * j < p.len());
        let end: int = if 4096 * k <= p.len() {
            (4096 * k) as int
        } else {
            p.len() as int
        };
        assert(p.take((4096 * j) as int) + chunk_of(p, j) =~= p.take(end));
    }
}

/// Cut into chunks, a payload is sent whole and in order: the chunks joined give it
/// back, and each one holds between 1 and 4096 characters.
pub proof fn law_chunks_reassemble(p: Seq<char>)
    ensures
        chunks_joined(p, chunk_count(p.len())) == p,
        forall|i: nat|
            i < chunk_count(p.len()) ==> 0 < #[trigger] chunk_of(p, i).len() <= 4096,
{
    lemma_chunk_count(p.len());
    lemma_chunks_prefix(p, chunk_count(p.len()));
    assert(p.take(p.len() as int) =~= p);
    assert forall|i: nat| i < chunk_count(p.len()) implies 0 < #[trigger] chunk_of(p, i).len()
        <= 4096 by {
        assert(4096 * i <= 4096 * (chunk_count(p.len()) - 1)) by (nonlinear_arith)
            requires
                i < chunk_count(p.len()),
        ;
    }
}

/// Appends the chunked transmission of `p` (see `transmit_spec`).
fn push_transmit(out: &mut String, p: &Vec<char>, head: &str, in_tmux: bool)
    ensures
        final(out)@ == old(out)@ + transmit_spec(p@, head@, in_tmux),
{
    let n = p.len();
    let mut start: usize = 0;
    let mut i: usize = 0;
    while start < n
        invariant
            start <= n,
            n == p@.len(),
            start < n ==> start == 4096 * i,
            chunk_count(n as nat) == i + chunk_count((n - start) as nat),
            out@ == old(out)@ + chunks_upto(p@, head@, in_tmux, i as nat),
        decreases n - start,
    {
        let rest = n - start;
        let last = rest <= 4096;
        let end = if last {
            n
        } else {
            start + 4096
        };
        proof {
            if !last {
                assert(chunk_count((rest - 4096) as nat) >= 1);
            }
            assert(last == (i + 1 == chunk_count(n as nat)));
        }
        let mut piece = String::new();
        if i == 0 {
            push_str(&mut piece, head);
        }
        push_str(&mut piece, "m=");
        push_char(&mut piece, if last { '0' } else { '1' });
        if i == 0 {
            push_str(&mut piece, ",q=2;");
        } else {
            push_str(&mut piece, ";");
        }
        push_chars(&mut piece, p, start, end);
        let a = apc(piece.as_str(), in_tmux);
        push_str(out, a.as_str());
        proof {
            assert(chunk_of(p@, i as nat) == p@.subrange(start as int, end as int));
            let m = if last { '0' } else { '1' };
            if i == 0 {
                assert(piece@ =~= head@ + "m="@ + seq![m] + ",q=2;"@ + chunk_of(p@, i as nat));
            } else {
                assert(piece@ =~= "m="@ + seq![m] + ";"@ + chunk_of(p@, i as nat));
            }
            assert(a@ == chunk_apc(p@, head@, i as nat, in_tmux));
            assert(out@ =~= old(out)@ + chunks_upto(p@, head@, in_tmux, (i + 1) as nat));
        }
        start = end;
        i = i + 1;
    }
}


// ── The NowPlaying cover ──────────────────────────────────────────────────────

/// Cells inside a one-cell border on both sides.
pub open spec fn inner(n: u16) -> nat {
    if n >= 2 {
        (n - 2) as nat
    } else {
        0
    }
}

/// Placeholder text for rows `0..k` of image `id`, row `r` written at terminal row
/// `row + 1 + r` and column `col + 1` (1-based).
pub open spec fn placeholder_rows(id: u32, cols: u16, k: nat, col: nat, row: nat) -> Seq<char>
    decreases k,
{
    if k == 0 {
        seq![]
    } else {
        placeholder_rows(id, cols, (k - 1) as nat, col, row) + "\x1b["@ + decimal(row + k) + ";"@
            + decimal(col + 1) + "H"@ + placeholder_row_spec(cols, id, (k - 1) as int)
    }
}

/// Appends the placeholder rows (see `placeholder_rows`).
fn push_placeholder_rows(out: &mut String, id: u32, cols: u16, rows: u16, col: u16, row: u16)
    requires
        col < 0xffff,
        row as int + rows as int <= 0xffff,
    ensures
        final(out)@ == old(out)@ + placeholder_rows(id, cols, rows as nat, col as nat, row as nat),
{
    let mut r: u16 = 0;
    while r < rows
        invariant
            r <= rows,
            col < 0xffff,
            row as int + rows as int <= 0xffff,
            out@ == old(out)@ + placeholder_rows(id, cols, r as nat, col as nat, row as nat),
        decreases rows - r,
    {
        let ghost before = out@;
        push_str(out, "\x1b[");
        push_decimal(out, (row + 1 + r) as u64);
        push_str(out, ";");
        push_decimal(out, (col + 1) as u64);
        push_str(out, "H");
        let line = placeholder_row(cols, id, r as usize);
        push_str(out, line.as_str());
        assert(out@ =~= before + "\x1b["@ + decimal((row + r + 1) as nat) + ";"@ + decimal((col + 1) as nat)
            + "H"@ + placeholder_row_spec(cols, id, r as int));
        r = r + 1;
    }
}

/// The escape sequences that show a cover whose RGBA pixels (`w` x `h`), zlib-compressed
/// and base64-encoded, are `b64`, inside the border of `area`. Outside tmux the image is
/// sent with `a=T` after moving the cursor to the inner area; inside tmux the old virtual
/// placement is deleted, the image stored with `a=t`, a virtual placement made with `U=1`,
/// and placeholder rows written `offset` rows further down. Nothing when the inner area
/// is empty.
pub open spec fn image_escape_spec(
    w: u32,
    h: u32,
    b64: Seq<char>,
    area: Rect,
    in_tmux: bool,
    offset: u16,
) -> Seq<char> {
    let iw = inner(area.width);
    let ih = inner(area.height);
    if iw == 0 || ih == 0 {
        seq![]
    } else if in_tmux {
        apc_spec("a=d,d=i,i=1,q=2"@, true) + transmit_spec(
            b64,
            "a=t,f=32,i=1,s="@ + decimal(w as nat) + ",v="@ + decimal(h as nat) + ",o=z,"@,
            true,
        ) + apc_spec("a=p,U=1,i=1,c="@ + decimal(iw) + ",r="@ + decimal(ih) + ",q=2"@, true)
            + placeholder_rows(1, iw as u16, ih, area.x as nat, (area.y + offset) as nat)
    } else {
        "\x1b["@ + decimal((area.y + 2) as nat) + ";"@ + decimal((area.x + 2) as nat) + "H"@
            + transmit_spec(
            b64,
            "a=T,f=32,i=1,s="@ + decimal(w as nat) + ",v="@ + decimal(h as nat) + ",c="@
                + decimal(iw) + ",r="@ + decimal(ih) + ",o=z,"@,
            false,
        )
    }
}

/// Screen positions that the cover's escape sequences can address in 16 bits.
pub open spec fn cover_area_fits(area: Rect, in_tmux: bool, offset: u16) -> bool {
    &&& area.x as int + 2 <= 0xffff
    &&& area.y as int + 2 <= 0xffff
    &&& in_tmux && inner(area.width) > 0 ==> area.y as int + inner(area.height) + offset as int
        <= 0xffff
}

/// Builds the cover's escape sequences from its encoded pixels (see `image_escape_spec`).
pub fn image_escape(w: u32, h: u32, b64: &str, area: Rect, in_tmux: bool, offset: u16) -> (s: String)
    requires
        cover_area_fits(area, in_tmux, offset),
    ensures
        s@ == image_escape_spec(w, h, b64@, area, in_tmux, offset),
{
    let iw: u16 = if area.width >= 2 {
        area.width - 2
    } else {
        0
    };
    let ih: u16 = if area.height >= 2 {
        area.height - 2
    } else {
        0
    };
    let mut out = String::new();
    if iw == 0 || ih == 0 {
        return out;
    }
    let payload = chars_of(b64);
    let mut head = String::new();
    if in_tmux {
        let del = apc("a=d,d=i,i=1,q=2", true);
        push_str(&mut out, del.as_str());
        push_str(&mut head, "a=t,f=32,i=1,s=");
        push_decimal(&mut head, w as u64);
        push_str(&mut head, ",v=");
        push_decimal(&mut head, h as u64);
        push_str(&mut head, ",o=z,");
        push_transmit(&mut out, &payload, head.as_str(), true);
        let mut place = String::new();
        push_str(&mut place, "a=p,U=1,i=1,c=");
        push_decimal(&mut place, iw as u64);
        push_str(&mut place, ",r=");
        push_decimal(&mut place, ih as u64);
        push_str(&mut place, ",q=2");
        let p = apc(place.as_str(), true);
        push_str(&mut out, p.as_str());
        push_placeholder_rows(&mut out, 1, iw, ih, area.x, area.y + offset);
        assert(head@ =~= "a=t,f=32,i=1,s="@ + decimal(w as nat) + ",v="@ + decimal(h as nat)
            + ",o=z,"@);
        assert(place@ =~= "a=p,U=1,i=1,c="@ + decimal(iw as nat) + ",r="@ + decimal(ih as nat)
            + ",q=2"@);
    } else {
        push_str(&mut out, "\x1b[");
        push_decimal(&mut out, (area.y + 2) as u64);
        push_str(&mut out, ";");
        push_decimal(&mut out, (area.x + 2) as u64);
        push_str(&mut out, "H");
        push_str(&mut head, "a=T,f=32,i=1,s=");
        push_decimal(&mut head, w as u64);
        push_str(&mut head, ",v=");
        push_decimal(&mut head, h as u64);
        push_str(&mut head, ",c=");
        push_decimal(&mut head, iw as u64);
        push_str(&mut head, ",r=");
        push_decimal(&mut head, ih as u64);
        push_str(&mut head, ",o=z,");
        push_transmit(&mut out, &payload, head.as_str(), false);
        assert(head@ =~= "a=T,f=32,i=1,s="@ + decimal(w as nat) + ",v="@ + decimal(h as nat)
            + ",c="@ + decimal(iw as nat) + ",r="@ + decimal(ih as nat) + ",o=z,"@);
    }
    out
}

/// The outcome of drawing a cover from its encoded bytes: the escape sequences, or `Err`
/// when the image does not decode or compress. The picture is scaled to fit 10 pixels per
/// inner column and 20 per inner row, at most 1024 each way.
pub open spec fn render_image_spec(bytes: Seq<u8>, area: Rect, in_tmux: bool, offset: u16) -> Result<
    Seq<char>,
    (),
> {
    let iw = inner(area.width);
    let ih = inner(area.height);
    if iw == 0 || ih == 0 {
        Ok(seq![])
    } else {
        let pw = if iw * 10 <= 1024 {
            iw * 10
        } else {
            1024
        };
        let ph = if ih * 20 <= 1024 {
            ih * 20
        } else {
            1024
        };
        match fit_rgba(bytes, pw as u32, ph as u32) {
            None => Err(()),
            Some(img) => match zlib_of(img.2) {
                None => Err(()),
                Some(c) => Ok(image_escape_spec(img.0, img.1, base64_of(c), area, in_tmux, offset)),
            },
        }
    }
}

/// The escape sequences that draw the cover `bytes` (JPEG, PNG, ...) inside the border of
/// `area` (see `render_image_spec`); the caller writes them to the terminal.
pub fn render_image(bytes: &[u8], area: Rect, in_tmux: bool, tmux_status_offset: u16) -> (r: Result<
    String,
    String,
>)
    requires
        cover_area_fits(area, in_tmux, tmux_status_offset),
    ensures
        match r {
            Ok(s) => render_image_spec(bytes@, area, in_tmux, tmux_status_offset) == Ok::<
                Seq<char>,
                (),
            >(s@),
            Err(_) => render_image_spec(bytes@, area, in_tmux, tmux_status_offset) is Err,
        },
{
    let iw: u32 = if area.width >= 2 {
        (area.width - 2) as u32
    } else {
        0
    };
    let ih: u32 = if area.height >= 2 {
        (area.height - 2) as u32
    } else {
        0
    };
    if iw == 0 || ih == 0 {
        return Ok(String::new());
    }
    let pw: u32 = if iw * 10 <= 1024 {
        iw * 10
    } else {
        1024
    };
    let ph: u32 = if ih * 20 <= 1024 {
        ih * 20
    } else {
        1024
    };
    let img = match decode_fit(bytes, pw, ph) {
        Some(t) => t,
        None => {
            return Err(String::from_str("the cover image does not decode"));
        },
    };
    let compressed = match zlib_compress(img.2.as_slice()) {
        Some(c) => c,
        None => {
            return Err(String::from_str("the cover image does not compress"));
        },
    };
    let b64 = base64_standard(compressed.as_slice());
    Ok(image_escape(img.0, img.1, b64.as_str(), area, in_tmux, tmux_status_offset))
}

/// Shows the cover the terminal still stores (image id 1) again inside the border of
/// `area`, without sending it: a cursor move and an `a=p` placement of the inner size.
pub open spec fn display_image_spec(area: Rect) -> Seq<char> {
    let iw = inner(area.width);
    let ih = inner(area.height);
    if iw == 0 || ih == 0 {
        seq![]
    } else {
        "\x1b["@ + decimal((area.y + 2) as nat) + ";"@ + decimal((area.x + 2) as nat) + "H"@
            + apc_spec("a=p,i=1,c="@ + decimal(iw) + ",r="@ + decimal(ih) + ",q=2"@, false)
    }
}

/// The escape sequences that show the stored cover again (see `display_image_spec`).
pub fn display_image(area: Rect) -> (s: String)
    requires
        area.x as int + 2 <= 0xffff,
        area.y as int + 2 <= 0xffff,
    ensures
        s@ == display_image_spec(area),
{
    let mut out = String::new();
    if area.width <= 2 || area.height <= 2 {
        return out;
    }
    let iw = area.width - 2;
    let ih = area.height - 2;
    push_str(&mut out, "\x1b[");
    push_decimal(&mut out, (area.y + 2) as u64);
    push_str(&mut out, ";");
    push_decimal(&mut out, (area.x + 2) as u64);
    push_str(&mut out, "H");
    let mut place = String::new();
    push_str(&mut place, "a=p,i=1,c=");
    push_decimal(&mut place, iw as u64);
    push_str(&mut place, ",r=");
    push_decimal(&mut place, ih as u64);
    push_str(&mut place, ",q=2");
    let a = apc(place.as_str(), false);
    push_str(&mut out, a.as_str());
    assert(place@ =~= "a=p,i=1,c="@ + decimal(iw as nat) + ",r="@ + decimal(ih as nat) + ",q=2"@);
    out
}

/// Deletes the cover (image id 1): its virtual placement inside tmux, every image outside.
pub fn clear_image(in_tmux: bool) -> (s: String)
    ensures
        s@ == (if in_tmux {
            apc_spec("a=d,d=i,i=1,q=2"@, true)
        } else {
            apc_spec("a=d,d=A,q=2"@, false)
        }),
{
    if in_tmux {
        apc("a=d,d=i,i=1,q=2", true)
    } else {
        apc("a=d,d=A,q=2", false)
    }
}


// ── The art strip ─────────────────────────────────────────────────────────────

/// Deleting the art strip's images `100..100 + k`: virtual placements (`d=i`) inside
/// tmux, image data and placements (`d=I`) outside.
pub open spec fn delete_ids_spec(k: nat, in_tmux: bool) -> Seq<char>
    decreases k,
{
    if k == 0 {
        seq![]
    } else {
        delete_ids_spec((k - 1) as nat, in_tmux) + apc_spec(
            "a=d,d="@ + (if in_tmux {
                "i"@
            } else {
                "I"@
            }) + ",i="@ + decimal((100 + k - 1) as nat) + ",q=2"@,
            in_tmux,
        )
    }
}

/// Appends the deletion of images `100..116` (see `delete_ids_spec`).
fn push_delete_ids(out: &mut String, in_tmux: bool)
    ensures
        final(out)@ == old(out)@ + delete_ids_spec(16, in_tmux),
{
    let mut k: u32 = 0;
    while k < 16
        invariant
            k <= 16,
            out@ == old(out)@ + delete_ids_spec(k as nat, in_tmux),
        decreases 16 - k,
    {
        let mut payload = String::new();
        if in_tmux {
            push_str(&mut payload, "a=d,d=i");
        } else {
            push_str(&mut payload, "a=d,d=I");
        }
        push_str(&mut payload, ",i=");
        push_decimal(&mut payload, (100 + k) as u64);
        push_str(&mut payload, ",q=2");
        let a = apc(payload.as_str(), in_tmux);
        push_str(out, a.as_str());
        proof {
            reveal_strlit("a=d,d=i");
            reveal_strlit("a=d,d=I");
            reveal_strlit("a=d,d=");
            reveal_strlit("i");
            reveal_strlit("I");
            assert(payload@ =~= "a=d,d="@ + (if in_tmux {
                "i"@
            } else {
                "I"@
            }) + ",i="@ + decimal((100 + (k + 1) - 1) as nat) + ",q=2"@);
        }
        k = k + 1;
    }
}

/// Deletes every art strip image (ids 100 to 115); for a tab change or a resize.
pub fn clear_art_strip(in_tmux: bool) -> (s: String)
    ensures
        s@ == delete_ids_spec(16, in_tmux),
{
    let mut s = String::new();
    push_delete_ids(&mut s, in_tmux);
    s
}

/// The first cached art stored under `id`, searching from entry `i`.
pub open spec fn art_from(cache: Seq<(String, Vec<u8>)>, id: Seq<char>, i: nat) -> Option<Seq<u8>>
    decreases cache.len() - i,
{
    if i >= cache.len() {
        None
    } else if cache[i as int].0@ == id {
        Some(cache[i as int].1@)
    } else {
        art_from(cache, id, i + 1)
    }
}

/// Where the first art stored under `id` is.
fn find_art(cache: &Vec<(String, Vec<u8>)>, id: &str) -> (r: Option<usize>)
    ensures
        match r {
            Some(i) => i < cache@.len() && art_from(cache@, id@, 0) == Some(cache@[i as int].1@),
            None => art_from(cache@, id@, 0) is None,
        },
{
    let mut i: usize = 0;
    while i < cache.len()
        invariant
            i <= cache@.len(),
            art_from(cache@, id@, 0) == art_from(cache@, id@, i as nat),
        decreases cache.len() - i,
    {
        if str_eq(cache[i].0.as_str(), id) {
            return Some(i);
        }
        i = i + 1;
    }
    None
}

/// One thumbnail of the strip: image `id` (`w` x `h` pixels, encoded as `b64`) stored
/// with `a=t`, then placed `tc` x `tr` cells at 0-based `(col, row)`: inside tmux as a
/// virtual placement with placeholder rows, outside with a direct `a=p` placement after a
/// cursor move.
pub open spec fn slot_escape_spec(
    id: u32,
    w: u32,
    h: u32,
    b64: Seq<char>,
    tc: u16,
    tr: u16,
    col: nat,
    row: nat,
    in_tmux: bool,
) -> Seq<char> {
    transmit_spec(
        b64,
        "a=t,f=32,i="@ + decimal(id as nat) + ",s="@ + decimal(w as nat) + ",v="@ + decimal(
            h as nat,
        ) + ",o=z,"@,
        in_tmux,
    ) + if in_tmux {
        apc_spec(
            "a=p,U=1,i="@ + decimal(id as nat) + ",c="@ + decimal(tc as nat) + ",r="@ + decimal(
                tr as nat,
            ) + ",q=2"@,
            true,
        ) + placeholder_rows(id, tc, tr as nat, col, row)
    } else {
        "\x1b["@ + decimal(row + 1) + ";"@ + decimal(col + 1) + "H"@ + apc_spec(
            "a=p,i="@ + decimal(id as nat) + ",p=1,c="@ + decimal(tc as nat) + ",r="@ + decimal(
                tr as nat,
            ) + ",q=2;"@,
            false,
        )
    }
}

/// Builds one thumbnail's escape sequences (see `slot_escape_spec`).
pub fn strip_slot_escape(
    id: u32,
    w: u32,
    h: u32,
    b64: &str,
    tc: u16,
    tr: u16,
    col: u16,
    row: u16,
    in_tmux: bool,
) -> (s: String)
    requires
        col < 0xffff,
        row as int + tr as int <= 0xffff,
        row < 0xffff,
    ensures
        s@ == slot_escape_spec(id, w, h, b64@, tc, tr, col as nat, row as nat, in_tmux),
{
    let payload = chars_of(b64);
    let mut head = String::new();
    push_str(&mut head, "a=t,f=32,i=");
    push_decimal(&mut head, id as u64);
    push_str(&mut head, ",s=");
    push_decimal(&mut head, w as u64);
    push_str(&mut head, ",v=");
    push_decimal(&mut head, h as u64);
    push_str(&mut head, ",o=z,");
    let mut out = String::new();
    push_transmit(&mut out, &payload, head.as_str(), in_tmux);
    let ghost sent = out@;
    let mut place = String::new();
    if in_tmux {
        push_str(&mut place, "a=p,U=1,i=");
        push_decimal(&mut place, id as u64);
        push_str(&mut place, ",c=");
        push_decimal(&mut place, tc as u64);
        push_str(&mut place, ",r=");
        push_decimal(&mut place, tr as u64);
        push_str(&mut place, ",q=2");
        let a = apc(place.as_str(), true);
        push_str(&mut out, a.as_str());
        push_placeholder_rows(&mut out, id, tc, tr, col, row);
        assert(place@ =~= "a=p,U=1,i="@ + decimal(id as nat) + ",c="@ + decimal(tc as nat) + ",r="@
            + decimal(tr as nat) + ",q=2"@);
    } else {
        push_str(&mut out, "\x1b[");
        push_decimal(&mut out, (row + 1) as u64);
        push_str(&mut out, ";");
        push_decimal(&mut out, (col + 1) as u64);
        push_str(&mut out, "H");
        push_str(&mut place, "a=p,i=");
        push_decimal(&mut place, id as u64);
        push_str(&mut place, ",p=1,c=");
        push_decimal(&mut place, tc as u64);
        push_str(&mut place, ",r=");
        push_decimal(&mut place, tr as u64);
        push_str(&mut place, ",q=2;");
        let a = apc(place.as_str(), false);
        push_str(&mut out, a.as_str());
        assert(place@ =~= "a=p,i="@ + decimal(id as nat) + ",p=1,c="@ + decimal(tc as nat) + ",r="@
            + decimal(tr as nat) + ",q=2;"@);
    }
    assert(head@ =~= "a=t,f=32,i="@ + decimal(id as nat) + ",s="@ + decimal(w as nat) + ",v="@
        + decimal(h as nat) + ",o=z,"@);
    assert(out@ =~= slot_escape_spec(id, w, h, b64@, tc, tr, col as nat, row as nat, in_tmux));
    out
}

/// Thumbnail `slot` of the strip, showing the album `album_id`: nothing when its art is
/// not cached, does not decode or does not compress; else the art scaled to exactly
/// 32 pixels per row of the strip each way, as image `100 + slot`.
pub open spec fn strip_slot_spec(
    cache: Seq<(String, Vec<u8>)>,
    album_id: Seq<char>,
    slot: nat,
    tc: u16,
    tr: u16,
    col: nat,
    row: nat,
    in_tmux: bool,
) -> Seq<char> {
    match art_from(cache, album_id, 0) {
        None => seq![],
        Some(bytes) => match exact_rgba(bytes, (tr * 32) as u32, (tr * 32) as u32) {
            None => seq![],
            Some(img) => match zlib_of(img.2) {
                None => seq![],
                Some(c) => slot_escape_spec(
                    (100 + slot) as u32,
                    img.0,
                    img.1,
                    base64_of(c),
                    tc,
                    tr,
                    col,
                    row,
                    in_tmux,
                ),
            },
        },
    }
}

/// Thumbnails `0..k` of the strip, thumbnail `i` showing album `scroll + i` at column
/// `col + i * (tc + 1)`.
pub open spec fn strip_slots(
    albums: Seq<(String, String, String)>,
    scroll: nat,
    cache: Seq<(String, Vec<u8>)>,
    k: nat,
    tc: u16,
    tr: u16,
    col: nat,
    row: nat,
    in_tmux: bool,
) -> Seq<char>
    decreases k,
{
    if k == 0 {
        seq![]
    } else {
        let i = (k - 1) as nat;
        strip_slots(albums, scroll, cache, i, tc, tr, col, row, in_tmux) + strip_slot_spec(
            cache,
            albums[(scroll + i) as int].0@,
            i,
            tc,
            tr,
            col + i * (tc as nat + 1),
            row,
            in_tmux,
        )
    }
}

/// How many thumbnails of `tc` columns, one column apart, the strip shows across `cols`.
pub open spec fn strip_visible(cols: u16, tc: nat) -> nat {
    let c = inner(cols) / (tc + 1);
    if c >= 1 {
        c
    } else {
        1
    }
}

/// The art strip has 16 image ids, 100 to 115: at most that many thumbnails.
pub open spec fn strip_slot_limit(visible: nat) -> nat {
    if visible < 16 {
        visible
    } else {
        16
    }
}

/// How many thumbnails the strip draws: as many as are visible, of the albums from
/// `scroll` on.
pub open spec fn strip_count(n_albums: nat, scroll: nat, visible: nat) -> nat {
    if scroll >= n_albums {
        0
    } else if n_albums - scroll < visible {
        (n_albums - scroll) as nat
    } else {
        visible
    }
}

/// The art strip: inside tmux the previous placements are deleted first; then the
/// visible thumbnails (at most 16, ids 100 to 115), square in cell count (`height`
/// columns by `height` rows), from album `scroll` on, at the strip's terminal offset.
pub open spec fn art_strip_spec(
    albums: Seq<(String, String, String)>,
    scroll: nat,
    cache: Seq<(String, Vec<u8>)>,
    area: Rect,
    col_offset: u16,
    row_offset: u16,
    in_tmux: bool,
) -> Seq<char> {
    let tr = area.height;
    let tc = tr;
    let k = strip_count(
        albums.len(),
        scroll,
        strip_slot_limit(strip_visible(area.width, tc as nat)),
    );
    (if in_tmux {
        delete_ids_spec(16, true)
    } else {
        seq![]
    }) + strip_slots(albums, scroll, cache, k, tc, tr, col_offset as nat, row_offset as nat, in_tmux)
}

proof fn lemma_slot_column(i: nat, k: nat, c: nat, tc1: nat, width: nat)
    requires
        i < k,
        k <= c,
        c == width / tc1,
        tc1 >= 1,
    ensures
        i * tc1 + tc1 <= width,
{
    assert(i * tc1 + tc1 <= c * tc1) by (nonlinear_arith)
        requires
            i < c,
            tc1 >= 1,
    ;
    assert(c * tc1 <= width) by (nonlinear_arith)
        requires
            c == width / tc1,
            tc1 >= 1,
    ;
}

/// The escape sequences of the home tab's art strip (see `art_strip_spec`): the albums
/// are `(album_id, name, artist)`, `art_cache` holds the cover bytes by album id.
pub fn render_art_strip(
    albums: &Vec<(String, String, String)>,
    scroll_offset: usize,
    _selected_index: usize,
    art_cache: &Vec<(String, Vec<u8>)>,
    strip_area: Rect,
    cell_px: Option<(u16, u16)>,
    terminal_col_offset: u16,
    terminal_row_offset: u16,
    in_tmux: bool,
) -> (s: String)
    requires
        strip_area.height <= 256,
        terminal_col_offset + strip_area.width < 0xffff,
        terminal_row_offset + strip_area.height < 0xffff,
    ensures
        s@ == art_strip_spec(
            albums@,
            scroll_offset as nat,
            art_cache@,
            strip_area,
            terminal_col_offset,
            terminal_row_offset,
            in_tmux,
        ),
{
    let mut out = String::new();
    if in_tmux {
        push_delete_ids(&mut out, true);
    }
    let ghost pre = out@;
    let (tc, tr) = art_strip_thumbnail_size(cell_px, strip_area.height);
    let visible = visible_thumbnail_count(strip_area.width, tc, 1);
    let px: u32 = tr as u32 * 32;
    let slots: usize = if visible < 16 {
        visible
    } else {
        16
    };
    let ghost k = strip_count(albums@.len(), scroll_offset as nat, slots as nat);
    proof {
        assert(visible as nat == strip_visible(strip_area.width, tc as nat));
    }
    let mut i: usize = 0;
    while i < slots
        invariant_except_break
            i <= slots,
            scroll_offset as nat + i <= albums@.len() || i == 0,
        invariant
            slots <= visible,
            slots <= 16,
            slots as nat == strip_slot_limit(visible as nat),
            tc == tr,
            tr == strip_area.height,
            px == tr * 32,
            strip_area.height <= 256,
            terminal_col_offset + strip_area.width < 0xffff,
            terminal_row_offset + strip_area.height < 0xffff,
            visible as nat == strip_visible(strip_area.width, tc as nat),
            k == strip_count(albums@.len(), scroll_offset as nat, slots as nat),
            i <= k,
            out@ == pre + strip_slots(
                albums@,
                scroll_offset as nat,
                art_cache@,
                i as nat,
                tc,
                tr,
                terminal_col_offset as nat,
                terminal_row_offset as nat,
                in_tmux,
            ),
        ensures
            i == k,
        decreases slots - i,
    {
        if scroll_offset >= albums.len() || i >= albums.len() - scroll_offset {
            break;
        }
        let ghost before = out@;
        let idx = scroll_offset + i;
        proof {
            let c = inner(strip_area.width) / (tc as nat + 1);
            if c >= 1 {
                lemma_slot_column(i as nat, visible as nat, c, tc as nat + 1, inner(strip_area.width));
            } else {
                assert(visible == 1 && i == 0);
            }
        }
        let col: u16 = (terminal_col_offset as u32 + (i as u32) * (tc as u32 + 1)) as u16;
        let id: u32 = 100 + i as u32;
        match find_art(art_cache, albums[idx].0.as_str()) {
            None => {},
            Some(j) => {
                match decode_exact(art_cache[j].1.as_slice(), px, px) {
                    None => {},
                    Some(img) => {
                        match zlib_compress(img.2.as_slice()) {
                            None => {},
                            Some(c) => {
                                let b64 = base64_standard(c.as_slice());
                                let slot = strip_slot_escape(
                                    id,
                                    img.0,
                                    img.1,
                                    b64.as_str(),
                                    tc,
                                    tr,
                                    col,
                                    terminal_row_offset,
                                    in_tmux,
                                );
                                push_str(&mut out, slot.as_str());
                            },
                        }
                    },
                }
            },
        }
        proof {
            assert(out@ == before + strip_slot_spec(
                art_cache@,
                albums@[idx as int].0@,
                i as nat,
                tc,
                tr,
                col as nat,
                terminal_row_offset as nat,
                in_tmux,
            ));
        }
        i = i + 1;
    }
    out
}

} // verus!
