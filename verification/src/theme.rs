//! Colour theme: the `[theme]` configuration resolved to RGB colours.
use vstd::prelude::*;
use crate::config::ThemeSection;
use crate::text::{chars_of, trim, trim_chars};

verus! {

/// An RGB colour.
#[derive(Clone, Copy, PartialEq, Eq, Structural, Debug)]
pub struct Rgb {
    pub r: u8,
    pub g: u8,
    pub b: u8,
}

/// The interface colours.
#[derive(Clone, Copy, PartialEq, Eq, Structural, Debug)]
pub struct Theme {
    /// Accent: active borders, highlighted items, progress bar fill (#ff8c00).
    pub accent: Rgb,
    /// Outer background: status bar, now-playing bar (#1a1a1a).
    pub background: Rgb,
    /// Panel backgrounds: browser columns, queue block (#161616).
    pub surface: Rgb,
    /// Primary text (#d4d0c8).
    pub foreground: Rgb,
    /// Secondary, muted text (#5a5858).
    pub dimmed: Rgb,
    /// Inactive pane borders (#252525).
    pub border: Rgb,
    /// Active pane borders (#3a3a3a).
    pub border_active: Rgb,
    /// Whether the accent follows the album art.
    pub dynamic: bool,
}

/// Value of a hexadecimal digit.
pub open spec fn hex_val(c: char) -> Option<nat> {
    if '0' <= c && c <= '9' {
        Some((c as u32 - '0' as u32) as nat)
    } else if 'a' <= c && c <= 'f' {
        Some((c as u32 - 'a' as u32 + 10) as nat)
    } else if 'A' <= c && c <= 'F' {
        Some((c as u32 - 'A' as u32 + 10) as nat)
    } else {
        None
    }
}

/// A two-character field read as a hexadecimal byte, as `u8::from_str_radix(_, 16)` reads
/// it: two hex digits, or `+` and one hex digit.
pub open spec fn hex_byte(a: char, b: char) -> Option<u8> {
    if a == '+' {
        match hex_val(b) {
            Some(v) => Some(v as u8),
            None => None,
        }
    } else {
        match (hex_val(a), hex_val(b)) {
            (Some(x), Some(y)) => Some((x * 16 + y) as u8),
            _ => None,
        }
    }
}

/// `s` without its leading `#` characters.
pub open spec fn strip_hashes(s: Seq<char>) -> Seq<char>
    decreases s.len(),
{
    if s.len() > 0 && s[0] == '#' {
        strip_hashes(s.drop_first())
    } else {
        s
    }
}

/// A colour written as six hexadecimal digits, with or without leading `#` and
/// surrounding whitespace.
pub open spec fn parse_hex_spec(s: Seq<char>) -> Option<Rgb> {
    let t = strip_hashes(trim(s));
    if t.len() != 6 {
        None
    } else {
        match (hex_byte(t[0], t[1]), hex_byte(t[2], t[3]), hex_byte(t[4], t[5])) {
            (Some(r), Some(g), Some(b)) => Some(Rgb { r, g, b }),
            _ => None,
        }
    }
}

fn hex_val_of(c: char) -> (r: Option<u8>)
    ensures
        match hex_val(c) {
            Some(v) => r == Some(v as u8) && v < 16,
            None => r.is_none(),
        },
{
    if '0' <= c && c <= '9' {
        Some((c as u32 - '0' as u32) as u8)
    } else if 'a' <= c && c <= 'f' {
        Some((c as u32 - 'a' as u32 + 10) as u8)
    } else if 'A' <= c && c <= 'F' {
        Some((c as u32 - 'A' as u32 + 10) as u8)
    } else {
        None
    }
}

fn hex_byte_of(a: char, b: char) -> (r: Option<u8>)
    ensures
        r == hex_byte(a, b),
{
    if a == '+' {
        return hex_val_of(b);
    }
    match (hex_val_of(a), hex_val_of(b)) {
        (Some(x), Some(y)) => Some(x * 16 + y),
        _ => None,
    }
}

/// Parses a colour such as `#ff8c00` (see `parse_hex_spec`).
pub fn parse_hex(s: &str) -> (r: Option<Rgb>)
    ensures
        r == parse_hex_spec(s@),
{
    let v = chars_of(s);
    let t = trim_chars(&v);
    let mut i: usize = 0;
    assert(t@.skip(0) == t@);
    while i < t.len() && t[i] == '#'
        invariant
            i <= t@.len(),
            strip_hashes(t@) == strip_hashes(t@.skip(i as int)),
        decreases t.len() - i,
    {
        assert(t@.skip(i as int).drop_first() == t@.skip(i + 1));
        i = i + 1;
    }
    let ghost u = t@.skip(i as int);
    assert(strip_hashes(u) == u);
    if t.len() - i != 6 {
        return None;
    }
    let r = hex_byte_of(t[i], t[i + 1]);
    let g = hex_byte_of(t[i + 2], t[i + 3]);
    let b = hex_byte_of(t[i + 4], t[i + 5]);
    match (r, g, b) {
        (Some(r), Some(g), Some(b)) => Some(Rgb { r, g, b }),
        _ => None,
    }
}

/// The configured colour when it parses, else the default.
pub open spec fn colour_spec(opt: Option<String>, default: Rgb) -> Rgb {
    match opt {
        Some(s) => match parse_hex_spec(s@) {
            Some(c) => c,
            None => default,
        },
        None => default,
    }
}

fn colour(opt: &Option<String>, default: Rgb) -> (c: Rgb)
    ensures
        c == colour_spec(*opt, default),
{
    match opt {
        Some(s) => match parse_hex(s.as_str()) {
            Some(c) => c,
            None => default,
        },
        None => default,
    }
}

impl Theme {
    /// The theme of a `[theme]` section: each configured colour that parses, else the
    /// default palette.
    pub fn from_section(sec: &ThemeSection) -> (t: Self)
        ensures
            t.accent == colour_spec(sec.accent, Rgb { r: 255, g: 140, b: 0 }),
            t.background == colour_spec(sec.background, Rgb { r: 26, g: 26, b: 26 }),
            t.surface == colour_spec(sec.surface, Rgb { r: 22, g: 22, b: 22 }),
            t.foreground == colour_spec(sec.foreground, Rgb { r: 212, g: 208, b: 200 }),
            t.dimmed == colour_spec(sec.dimmed, Rgb { r: 90, g: 88, b: 88 }),
            t.border == colour_spec(sec.border, Rgb { r: 37, g: 37, b: 37 }),
            t.border_active == colour_spec(sec.border_active, Rgb { r: 58, g: 58, b: 58 }),
            t.dynamic == sec.dynamic,
    {
        Theme {
            accent: colour(&sec.accent, Rgb { r: 255, g: 140, b: 0 }),
            background: colour(&sec.background, Rgb { r: 26, g: 26, b: 26 }),
            surface: colour(&sec.surface, Rgb { r: 22, g: 22, b: 22 }),
            foreground: colour(&sec.foreground, Rgb { r: 212, g: 208, b: 200 }),
            dimmed: colour(&sec.dimmed, Rgb { r: 90, g: 88, b: 88 }),
            border: colour(&sec.border, Rgb { r: 37, g: 37, b: 37 }),
            border_active: colour(&sec.border_active, Rgb { r: 58, g: 58, b: 58 }),
            dynamic: sec.dynamic,
        }
    }
}

} // verus!
