//! Key bindings: the `[keybinds]` configuration, key-string parsing, and the mapping
//! from key presses to actions.
use vstd::prelude::*;
use crate::action::{Action, Direction};
use crate::app::Tab;
use crate::config::KeybindsSection;
use crate::text::{char_is_uppercase, chars_of, is_uppercase, seq_eq, trim, trim_chars};

verus! {

/// A key, as far as the bindings tell keys apart.
#[derive(Clone, Copy, PartialEq, Eq, Structural, Debug)]
pub enum KeyCode {
    Char(char),
    Tab,
    BackTab,
    Enter,
    Esc,
    Left,
    Right,
    Up,
    Down,
    Backspace,
    /// Any other key.
    Other,
}

/// Shift modifier bit.
pub const SHIFT: u8 = 0b0000_0001;
/// Control modifier bit.
pub const CONTROL: u8 = 0b0000_0010;
/// Alt modifier bit.
pub const ALT: u8 = 0b0000_0100;

/// A key combination: a key and the modifier bits that must be held.
#[derive(Clone, Copy, PartialEq, Eq, Structural, Debug)]
pub struct KeySpec {
    pub code: KeyCode,
    pub modifiers: u8,
}

/// Every bit of `want` is set in `held`.
pub open spec fn mods_contain(held: u8, want: u8) -> bool {
    held & want == want
}

/// `(code, mods)` presses the combination `k`: same key, and the required modifiers are
/// held, except that an uppercase letter matches whether or not Shift is reported.
pub open spec fn key_matches(k: KeySpec, code: KeyCode, mods: u8) -> bool {
    k.code == code && match k.code {
        KeyCode::Char(c) => char_is_uppercase(c) || mods_contain(mods, k.modifiers),
        _ => mods_contain(mods, k.modifiers),
    }
}

/// A key combination is triggered by pressing exactly that combination.
pub proof fn law_key_matches_itself(k: KeySpec)
    ensures
        key_matches(k, k.code, k.modifiers),
{
    let m = k.modifiers;
    assert(m & m == m) by (bit_vector);
}

/// The label of a key combination.
pub open spec fn key_label(k: KeySpec) -> Seq<char> {
    match k.code {
        KeyCode::Char(c) => if char_is_uppercase(c) {
            seq!['S', '+', crate::text::ascii_lower(c)]
        } else {
            seq![c]
        },
        KeyCode::Tab => "Tab"@,
        KeyCode::Enter => "Enter"@,
        KeyCode::Esc => "Esc"@,
        KeyCode::Left => "←"@,
        KeyCode::Right => "→"@,
        KeyCode::Up => "↑"@,
        KeyCode::Down => "↓"@,
        KeyCode::Backspace => "Bksp"@,
        _ => "?"@,
    }
}

impl KeySpec {
    /// A key with no modifiers.
    pub fn new(code: KeyCode) -> (k: Self)
        ensures
            k == (KeySpec { code, modifiers: 0 }),
    {
        KeySpec { code, modifiers: 0 }
    }

    /// Whether `(code, mods)` presses this combination (see `key_matches`).
    pub fn matches(&self, code: KeyCode, mods: u8) -> (b: bool)
        ensures
            b == key_matches(*self, code, mods),
    {
        if self.code != code {
            return false;
        }
        match self.code {
            KeyCode::Char(c) => {
                if is_uppercase(c) {
                    return true;
                }
                mods & self.modifiers == self.modifiers
            },
            _ => mods & self.modifiers == self.modifiers,
        }
    }

    /// Human-readable label: `S+x` for an uppercase letter, the character itself, or the
    /// key's name.
    pub fn display(&self) -> (s: String)
        ensures
            s@ == key_label(*self),
    {
        match self.code {
            KeyCode::Char(c) => {
                let mut s = String::new();
                if is_uppercase(c) {
                    crate::text::push_char(&mut s, 'S');
                    crate::text::push_char(&mut s, '+');
                    crate::text::push_char(&mut s, crate::text::to_ascii_lower(c));
                } else {
                    crate::text::push_char(&mut s, c);
                }
                s
            },
            KeyCode::Tab => String::from_str("Tab"),
            KeyCode::Enter => String::from_str("Enter"),
            KeyCode::Esc => String::from_str("Esc"),
            KeyCode::Left => String::from_str("←"),
            KeyCode::Right => String::from_str("→"),
            KeyCode::Up => String::from_str("↑"),
            KeyCode::Down => String::from_str("↓"),
            KeyCode::Backspace => String::from_str("Bksp"),
            _ => String::from_str("?"),
        }
    }
}

// ── Key strings ───────────────────────────────────────────────────────────────

/// A combination with no modifiers, as a spec value.
pub open spec fn plain(code: KeyCode) -> KeySpec {
    KeySpec { code, modifiers: 0 }
}

/// The named special keys.
pub open spec fn named_key(s: Seq<char>) -> Option<KeySpec> {
    if s == "Tab"@ {
        Some(plain(KeyCode::Tab))
    } else if s == "Enter"@ {
        Some(plain(KeyCode::Enter))
    } else if s == "Esc"@ {
        Some(plain(KeyCode::Esc))
    } else if s == "Left"@ {
        Some(plain(KeyCode::Left))
    } else if s == "Right"@ {
        Some(plain(KeyCode::Right))
    } else if s == "Up"@ {
        Some(plain(KeyCode::Up))
    } else if s == "Down"@ {
        Some(plain(KeyCode::Down))
    } else if s == "Space"@ {
        Some(plain(KeyCode::Char(' ')))
    } else if s == "Backspace"@ {
        Some(plain(KeyCode::Backspace))
    } else {
        None
    }
}

/// `t` starts with `Shift+` or `shift+`.
pub open spec fn has_shift_prefix(t: Seq<char>) -> bool {
    t.len() >= 6 && (t.take(6) == "Shift+"@ || t.take(6) == "shift+"@)
}

/// The key a configuration string names: `Shift+x` (one ASCII letter, made uppercase,
/// with Shift), a single character, or a named key; surrounding whitespace is ignored.
pub open spec fn parse_key_spec(s: Seq<char>) -> Option<KeySpec> {
    let t = trim(s);
    if has_shift_prefix(t) {
        let rest = t.skip(6);
        if rest.len() == 1 && (rest[0] as u32) < 0x80 {
            Some(KeySpec { code: KeyCode::Char(crate::text::ascii_upper(rest[0])), modifiers: SHIFT })
        } else {
            None
        }
    } else if t.len() == 1 {
        Some(plain(KeyCode::Char(t[0])))
    } else {
        named_key(t)
    }
}

/// Whether `v` equals the characters of `lit`.
fn is_word(v: &Vec<char>, lit: &str) -> (b: bool)
    ensures
        b == (v@ == lit@),
{
    let w = chars_of(lit);
    seq_eq(v, &w)
}

/// Parses a key string such as `"j"`, `"Shift+a"`, `"Tab"` or `"Left"` (see
/// `parse_key_spec`).
pub fn parse_key(s: &str) -> (r: Option<KeySpec>)
    ensures
        r == parse_key_spec(s@),
{
    let v = chars_of(s);
    let t = trim_chars(&v);
    if t.len() >= 6 {
        let mut head: Vec<char> = Vec::new();
        let mut i: usize = 0;
        while i < 6
            invariant
                i <= 6 <= t@.len(),
                head@ == t@.take(i as int),
            decreases 6 - i,
        {
            head.push(t[i]);
            i = i + 1;
        }
        if is_word(&head, "Shift+") || is_word(&head, "shift+") {
            if t.len() == 7 && (t[6] as u32) < 0x80 {
                return Some(
                    KeySpec { code: KeyCode::Char(crate::text::to_ascii_upper(t[6])), modifiers: SHIFT },
                );
            }
            return None;
        }
    }
    if t.len() == 1 {
        return Some(KeySpec::new(KeyCode::Char(t[0])));
    }
    if is_word(&t, "Tab") {
        Some(KeySpec::new(KeyCode::Tab))
    } else if is_word(&t, "Enter") {
        Some(KeySpec::new(KeyCode::Enter))
    } else if is_word(&t, "Esc") {
        Some(KeySpec::new(KeyCode::Esc))
    } else if is_word(&t, "Left") {
        Some(KeySpec::new(KeyCode::Left))
    } else if is_word(&t, "Right") {
        Some(KeySpec::new(KeyCode::Right))
    } else if is_word(&t, "Up") {
        Some(KeySpec::new(KeyCode::Up))
    } else if is_word(&t, "Down") {
        Some(KeySpec::new(KeyCode::Down))
    } else if is_word(&t, "Space") {
        Some(KeySpec::new(KeyCode::Char(' ')))
    } else if is_word(&t, "Backspace") {
        Some(KeySpec::new(KeyCode::Backspace))
    } else {
        None
    }
}

// ── Bindings ──────────────────────────────────────────────────────────────────

/// Every remappable binding.
#[derive(Clone, Copy, PartialEq, Eq, Structural, Debug)]
pub struct Keybinds {
    pub scroll_up: KeySpec,
    pub scroll_down: KeySpec,
    pub column_left: KeySpec,
    pub column_right: KeySpec,
    pub play_pause: KeySpec,
    pub next_track: KeySpec,
    pub prev_track: KeySpec,
    pub seek_forward: KeySpec,
    pub seek_backward: KeySpec,
    pub add_track: KeySpec,
    pub add_all: KeySpec,
    pub shuffle: KeySpec,
    pub unshuffle: KeySpec,
    pub clear_queue: KeySpec,
    pub search: KeySpec,
    pub volume_up: KeySpec,
    pub volume_down: KeySpec,
    pub tab_switch: KeySpec,
    /// Reverse tab cycle (Backtick by default).
    pub tab_switch_reverse: KeySpec,
    /// Jump to the Home tab (default: '1').
    pub go_to_home: KeySpec,
    /// Jump to the Browser tab (default: '2').
    pub go_to_browser: KeySpec,
    /// Jump to the NowPlaying tab (default: '3').
    pub go_to_nowplaying: KeySpec,
    pub quit: KeySpec,
}

/// The configured key when it parses, else the default.
pub open spec fn resolve_spec(opt: Option<String>, default: KeySpec) -> KeySpec {
    match opt {
        Some(s) => match parse_key_spec(s@) {
            Some(k) => k,
            None => default,
        },
        None => default,
    }
}

/// The configured key when it parses, else the default.
fn resolve(opt: &Option<String>, default: KeySpec) -> (k: KeySpec)
    ensures
        k == resolve_spec(*opt, default),
{
    match opt {
        Some(s) => match parse_key(s.as_str()) {
            Some(k) => k,
            None => default,
        },
        None => default,
    }
}

/// The bindings for a `[keybinds]` section: each configured key that parses, else the
/// default.
pub open spec fn keybinds_spec(sec: KeybindsSection) -> Keybinds {
    Keybinds {
        scroll_up: resolve_spec(sec.scroll_up, plain(KeyCode::Char('k'))),
        scroll_down: resolve_spec(sec.scroll_down, plain(KeyCode::Char('j'))),
        column_left: resolve_spec(sec.column_left, plain(KeyCode::Char('h'))),
        column_right: resolve_spec(sec.column_right, plain(KeyCode::Char('l'))),
        play_pause: resolve_spec(sec.play_pause, plain(KeyCode::Char('p'))),
        next_track: resolve_spec(sec.next_track, plain(KeyCode::Char('n'))),
        prev_track: resolve_spec(sec.prev_track, plain(KeyCode::Char('N'))),
        seek_forward: resolve_spec(sec.seek_forward, plain(KeyCode::Right)),
        seek_backward: resolve_spec(sec.seek_backward, plain(KeyCode::Left)),
        add_track: resolve_spec(sec.add_track, plain(KeyCode::Char('a'))),
        add_all: resolve_spec(sec.add_all, plain(KeyCode::Char('A'))),
        shuffle: resolve_spec(sec.shuffle, plain(KeyCode::Char('x'))),
        unshuffle: resolve_spec(sec.unshuffle, plain(KeyCode::Char('z'))),
        clear_queue: resolve_spec(sec.clear_queue, plain(KeyCode::Char('D'))),
        search: resolve_spec(sec.search, plain(KeyCode::Char('/'))),
        volume_up: resolve_spec(sec.volume_up, plain(KeyCode::Char('+'))),
        volume_down: resolve_spec(sec.volume_down, plain(KeyCode::Char('-'))),
        tab_switch: resolve_spec(sec.tab_switch, plain(KeyCode::Tab)),
        tab_switch_reverse: resolve_spec(sec.tab_switch_reverse, plain(KeyCode::Char('`'))),
        go_to_home: resolve_spec(sec.go_to_home, plain(KeyCode::Char('1'))),
        go_to_browser: resolve_spec(sec.go_to_browser, plain(KeyCode::Char('2'))),
        go_to_nowplaying: resolve_spec(sec.go_to_nowplaying, plain(KeyCode::Char('3'))),
        quit: resolve_spec(sec.quit, plain(KeyCode::Char('q'))),
    }
}

impl Keybinds {
    /// The bindings of a `[keybinds]` section (see `keybinds_spec`).
    pub fn from_section(sec: &KeybindsSection) -> (kb: Self)
        ensures
            kb == keybinds_spec(*sec),
    {
        Keybinds {
            scroll_up: resolve(&sec.scroll_up, KeySpec::new(KeyCode::Char('k'))),
            scroll_down: resolve(&sec.scroll_down, KeySpec::new(KeyCode::Char('j'))),
            column_left: resolve(&sec.column_left, KeySpec::new(KeyCode::Char('h'))),
            column_right: resolve(&sec.column_right, KeySpec::new(KeyCode::Char('l'))),
            play_pause: resolve(&sec.play_pause, KeySpec::new(KeyCode::Char('p'))),
            next_track: resolve(&sec.next_track, KeySpec::new(KeyCode::Char('n'))),
            prev_track: resolve(&sec.prev_track, KeySpec::new(KeyCode::Char('N'))),
            seek_forward: resolve(&sec.seek_forward, KeySpec::new(KeyCode::Right)),
            seek_backward: resolve(&sec.seek_backward, KeySpec::new(KeyCode::Left)),
            add_track: resolve(&sec.add_track, KeySpec::new(KeyCode::Char('a'))),
            add_all: resolve(&sec.add_all, KeySpec::new(KeyCode::Char('A'))),
            shuffle: resolve(&sec.shuffle, KeySpec::new(KeyCode::Char('x'))),
            unshuffle: resolve(&sec.unshuffle, KeySpec::new(KeyCode::Char('z'))),
            clear_queue: resolve(&sec.clear_queue, KeySpec::new(KeyCode::Char('D'))),
            search: resolve(&sec.search, KeySpec::new(KeyCode::Char('/'))),
            volume_up: resolve(&sec.volume_up, KeySpec::new(KeyCode::Char('+'))),
            volume_down: resolve(&sec.volume_down, KeySpec::new(KeyCode::Char('-'))),
            tab_switch: resolve(&sec.tab_switch, KeySpec::new(KeyCode::Tab)),
            tab_switch_reverse: resolve(
                &sec.tab_switch_reverse,
                KeySpec::new(KeyCode::Char('`')),
            ),
            go_to_home: resolve(&sec.go_to_home, KeySpec::new(KeyCode::Char('1'))),
            go_to_browser: resolve(&sec.go_to_browser, KeySpec::new(KeyCode::Char('2'))),
            go_to_nowplaying: resolve(&sec.go_to_nowplaying, KeySpec::new(KeyCode::Char('3'))),
            quit: resolve(&sec.quit, KeySpec::new(KeyCode::Char('q'))),
        }
    }
}

// ── Key presses to actions ────────────────────────────────────────────────────

/// The keys that are always bound, whatever the configuration.
pub open spec fn fixed_key(code: KeyCode, mods: u8) -> Option<Action> {
    if code == KeyCode::Char('g') && mods == 0 {
        Some(Action::Navigate(Direction::Top))
    } else if code == KeyCode::Char('G') && mods == 0 {
        Some(Action::Navigate(Direction::Bottom))
    } else if code == KeyCode::Enter {
        Some(Action::Select)
    } else if code == KeyCode::Esc {
        Some(Action::Back)
    } else if code == KeyCode::Char(' ') {
        Some(Action::PlayPause)
    } else if code == KeyCode::Char('=') {
        Some(Action::VolumeUp)
    } else if code == KeyCode::Char('t') && mods == 0 {
        Some(Action::ToggleDynamicTheme)
    } else if code == KeyCode::Char('L') {
        Some(Action::ToggleLyrics)
    } else if code == KeyCode::Up {
        Some(Action::Navigate(Direction::Up))
    } else if code == KeyCode::Down {
        Some(Action::Navigate(Direction::Down))
    } else {
        None
    }
}

/// The action of a key press outside the search prompt: the fixed keys first, then the
/// configured bindings in a fixed order (seek keys move between columns on the Browser
/// tab; "add all" is tried before "add").
pub open spec fn map_key_spec(code: KeyCode, mods: u8, tab: Tab, kb: Keybinds) -> Action {
    match fixed_key(code, mods) {
        Some(a) => a,
        None => if key_matches(kb.quit, code, mods) {
            Action::Quit
        } else if key_matches(kb.tab_switch, code, mods) {
            Action::SwitchTab
        } else if key_matches(kb.seek_forward, code, mods) {
            match tab {
                Tab::NowPlaying => Action::SeekForward,
                Tab::Browser => Action::FocusRight,
            }
        } else if key_matches(kb.seek_backward, code, mods) {
            match tab {
                Tab::NowPlaying => Action::SeekBackward,
                Tab::Browser => Action::FocusLeft,
            }
        } else if key_matches(kb.column_left, code, mods) {
            Action::FocusLeft
        } else if key_matches(kb.column_right, code, mods) {
            Action::FocusRight
        } else if key_matches(kb.scroll_up, code, mods) {
            Action::Navigate(Direction::Up)
        } else if key_matches(kb.scroll_down, code, mods) {
            Action::Navigate(Direction::Down)
        } else if key_matches(kb.play_pause, code, mods) {
            Action::PlayPause
        } else if key_matches(kb.next_track, code, mods) {
            Action::NextTrack
        } else if key_matches(kb.prev_track, code, mods) {
            Action::PrevTrack
        } else if key_matches(kb.add_all, code, mods) {
            Action::AddAllToQueue
        } else if key_matches(kb.add_track, code, mods) {
            Action::AddToQueue
        } else if key_matches(kb.shuffle, code, mods) {
            Action::Shuffle
        } else if key_matches(kb.unshuffle, code, mods) {
            Action::Unshuffle
        } else if key_matches(kb.clear_queue, code, mods) {
            Action::ClearQueue
        } else if key_matches(kb.search, code, mods) {
            Action::SearchStart
        } else if key_matches(kb.volume_up, code, mods) {
            Action::VolumeUp
        } else if key_matches(kb.volume_down, code, mods) {
            Action::VolumeDown
        } else {
            Action::NoOp
        },
    }
}

/// The keys that are always bound (see `fixed_key`).
fn fixed_key_of(code: KeyCode, mods: u8) -> (r: Option<Action>)
    ensures
        r == fixed_key(code, mods),
{
    if code == KeyCode::Char('g') && mods == 0 {
        Some(Action::Navigate(Direction::Top))
    } else if code == KeyCode::Char('G') && mods == 0 {
        Some(Action::Navigate(Direction::Bottom))
    } else if code == KeyCode::Enter {
        Some(Action::Select)
    } else if code == KeyCode::Esc {
        Some(Action::Back)
    } else if code == KeyCode::Char(' ') {
        Some(Action::PlayPause)
    } else if code == KeyCode::Char('=') {
        Some(Action::VolumeUp)
    } else if code == KeyCode::Char('t') && mods == 0 {
        Some(Action::ToggleDynamicTheme)
    } else if code == KeyCode::Char('L') {
        Some(Action::ToggleLyrics)
    } else if code == KeyCode::Up {
        Some(Action::Navigate(Direction::Up))
    } else if code == KeyCode::Down {
        Some(Action::Navigate(Direction::Down))
    } else {
        None
    }
}

/// The `k`-th configurable binding, in the order bindings are tried, with the action it is
/// for (the seek keys move between columns on the Browser tab).
pub open spec fn binding(kb: Keybinds, tab: Tab, k: int) -> (KeySpec, Action) {
    if k == 0 {
        (kb.quit, Action::Quit)
    } else if k == 1 {
        (kb.tab_switch, Action::SwitchTab)
    } else if k == 2 {
        (kb.seek_forward, match tab {
            Tab::NowPlaying => Action::SeekForward,
            Tab::Browser => Action::FocusRight,
        })
    } else if k == 3 {
        (kb.seek_backward, match tab {
            Tab::NowPlaying => Action::SeekBackward,
            Tab::Browser => Action::FocusLeft,
        })
    } else if k == 4 {
        (kb.column_left, Action::FocusLeft)
    } else if k == 5 {
        (kb.column_right, Action::FocusRight)
    } else if k == 6 {
        (kb.scroll_up, Action::Navigate(Direction::Up))
    } else if k == 7 {
        (kb.scroll_down, Action::Navigate(Direction::Down))
    } else if k == 8 {
        (kb.play_pause, Action::PlayPause)
    } else if k == 9 {
        (kb.next_track, Action::NextTrack)
    } else if k == 10 {
        (kb.prev_track, Action::PrevTrack)
    } else if k == 11 {
        (kb.add_all, Action::AddAllToQueue)
    } else if k == 12 {
        (kb.add_track, Action::AddToQueue)
    } else if k == 13 {
        (kb.shuffle, Action::Shuffle)
    } else if k == 14 {
        (kb.unshuffle, Action::Unshuffle)
    } else if k == 15 {
        (kb.clear_queue, Action::ClearQueue)
    } else if k == 16 {
        (kb.search, Action::SearchStart)
    } else if k == 17 {
        (kb.volume_up, Action::VolumeUp)
    } else if k == 18 {
        (kb.volume_down, Action::VolumeDown)
    } else {
        (kb.quit, Action::NoOp)
    }
}

/// The number of configurable bindings.
pub open spec fn binding_count() -> int {
    19
}

/// A key that is not one of the fixed keys and presses a configured binding, and no
/// binding tried before it, does what that binding is for: the next-track key skips
/// forward, the previous-track key back, and so on.
pub proof fn law_binding_gives_its_action(code: KeyCode, mods: u8, tab: Tab, kb: Keybinds, k: int)
    requires
        0 <= k < binding_count(),
        fixed_key(code, mods) is None,
        key_matches(binding(kb, tab, k).0, code, mods),
        forall|j: int| 0 <= j < k ==> !key_matches(#[trigger] binding(kb, tab, j).0, code, mods),
    ensures
        map_key_spec(code, mods, tab, kb) == binding(kb, tab, k).1,
{
    if 0 < k {
        assert(!key_matches(binding(kb, tab, 0).0, code, mods));
    }
    if 1 < k {
        assert(!key_matches(binding(kb, tab, 1).0, code, mods));
    }
    if 2 < k {
        assert(!key_matches(binding(kb, tab, 2).0, code, mods));
    }
    if 3 < k {
        assert(!key_matches(binding(kb, tab, 3).0, code, mods));
    }
    if 4 < k {
        assert(!key_matches(binding(kb, tab, 4).0, code, mods));
    }
    if 5 < k {
        assert(!key_matches(binding(kb, tab, 5).0, code, mods));
    }
    if 6 < k {
        assert(!key_matches(binding(kb, tab, 6).0, code, mods));
    }
    if 7 < k {
        assert(!key_matches(binding(kb, tab, 7).0, code, mods));
    }
    if 8 < k {
        assert(!key_matches(binding(kb, tab, 8).0, code, mods));
    }
    if 9 < k {
        assert(!key_matches(binding(kb, tab, 9).0, code, mods));
    }
    if 10 < k {
        assert(!key_matches(binding(kb, tab, 10).0, code, mods));
    }
    if 11 < k {
        assert(!key_matches(binding(kb, tab, 11).0, code, mods));
    }
    if 12 < k {
        assert(!key_matches(binding(kb, tab, 12).0, code, mods));
    }
    if 13 < k {
        assert(!key_matches(binding(kb, tab, 13).0, code, mods));
    }
    if 14 < k {
        assert(!key_matches(binding(kb, tab, 14).0, code, mods));
    }
    if 15 < k {
        assert(!key_matches(binding(kb, tab, 15).0, code, mods));
    }
    if 16 < k {
        assert(!key_matches(binding(kb, tab, 16).0, code, mods));
    }
    if 17 < k {
        assert(!key_matches(binding(kb, tab, 17).0, code, mods));
    }
    if 18 < k {
        assert(!key_matches(binding(kb, tab, 18).0, code, mods));
    }
}

/// The fixed keys win over any configuration: `g`/`G` jump to the top/bottom, Enter
/// selects, Esc goes back, Space plays or pauses, `=` raises the volume, `t` toggles the
/// dynamic theme, `L` the lyrics, and the arrow keys move up and down.
pub proof fn law_fixed_keys(tab: Tab, kb: Keybinds, mods: u8)
    ensures
        map_key_spec(KeyCode::Char('g'), 0, tab, kb) == Action::Navigate(Direction::Top),
        map_key_spec(KeyCode::Char('G'), 0, tab, kb) == Action::Navigate(Direction::Bottom),
        map_key_spec(KeyCode::Enter, mods, tab, kb) == Action::Select,
        map_key_spec(KeyCode::Esc, mods, tab, kb) == Action::Back,
        map_key_spec(KeyCode::Char(' '), mods, tab, kb) == Action::PlayPause,
        map_key_spec(KeyCode::Char('='), mods, tab, kb) == Action::VolumeUp,
        map_key_spec(KeyCode::Char('t'), 0, tab, kb) == Action::ToggleDynamicTheme,
        map_key_spec(KeyCode::Char('L'), mods, tab, kb) == Action::ToggleLyrics,
        map_key_spec(KeyCode::Up, mods, tab, kb) == Action::Navigate(Direction::Up),
        map_key_spec(KeyCode::Down, mods, tab, kb) == Action::Navigate(Direction::Down),
{
}

/// A key that is neither fixed nor any configured binding does nothing.
pub proof fn law_unbound_key_does_nothing(code: KeyCode, mods: u8, tab: Tab, kb: Keybinds)
    requires
        fixed_key(code, mods) is None,
        forall|j: int| 0 <= j < binding_count() ==> !key_matches(#[trigger] binding(kb, tab, j).0, code, mods),
    ensures
        map_key_spec(code, mods, tab, kb) == Action::NoOp,
{
    if 0 < binding_count() {
        assert(!key_matches(binding(kb, tab, 0).0, code, mods));
    }
    if 1 < binding_count() {
        assert(!key_matches(binding(kb, tab, 1).0, code, mods));
    }
    if 2 < binding_count() {
        assert(!key_matches(binding(kb, tab, 2).0, code, mods));
    }
    if 3 < binding_count() {
        assert(!key_matches(binding(kb, tab, 3).0, code, mods));
    }
    if 4 < binding_count() {
        assert(!key_matches(binding(kb, tab, 4).0, code, mods));
    }
    if 5 < binding_count() {
        assert(!key_matches(binding(kb, tab, 5).0, code, mods));
    }
    if 6 < binding_count() {
        assert(!key_matches(binding(kb, tab, 6).0, code, mods));
    }
    if 7 < binding_count() {
        assert(!key_matches(binding(kb, tab, 7).0, code, mods));
    }
    if 8 < binding_count() {
        assert(!key_matches(binding(kb, tab, 8).0, code, mods));
    }
    if 9 < binding_count() {
        assert(!key_matches(binding(kb, tab, 9).0, code, mods));
    }
    if 10 < binding_count() {
        assert(!key_matches(binding(kb, tab, 10).0, code, mods));
    }
    if 11 < binding_count() {
        assert(!key_matches(binding(kb, tab, 11).0, code, mods));
    }
    if 12 < binding_count() {
        assert(!key_matches(binding(kb, tab, 12).0, code, mods));
    }
    if 13 < binding_count() {
        assert(!key_matches(binding(kb, tab, 13).0, code, mods));
    }
    if 14 < binding_count() {
        assert(!key_matches(binding(kb, tab, 14).0, code, mods));
    }
    if 15 < binding_count() {
        assert(!key_matches(binding(kb, tab, 15).0, code, mods));
    }
    if 16 < binding_count() {
        assert(!key_matches(binding(kb, tab, 16).0, code, mods));
    }
    if 17 < binding_count() {
        assert(!key_matches(binding(kb, tab, 17).0, code, mods));
    }
    if 18 < binding_count() {
        assert(!key_matches(binding(kb, tab, 18).0, code, mods));
    }
}

/// The action of a key press outside the search prompt (see `map_key_spec`).
pub fn map_key(code: KeyCode, mods: u8, tab: Tab, kb: &Keybinds) -> (a: Action)
    ensures
        a == map_key_spec(code, mods, tab, *kb),
{
    if let Some(a) = fixed_key_of(code, mods) {
        return a;
    }
    if kb.quit.matches(code, mods) {
        return Action::Quit;
    }
    if kb.tab_switch.matches(code, mods) {
        return Action::SwitchTab;
    }
    if kb.seek_forward.matches(code, mods) {
        return match tab {
            Tab::NowPlaying => Action::SeekForward,
            Tab::Browser => Action::FocusRight,
        };
    }
    if kb.seek_backward.matches(code, mods) {
        return match tab {
            Tab::NowPlaying => Action::SeekBackward,
            Tab::Browser => Action::FocusLeft,
        };
    }
    if kb.column_left.matches(code, mods) {
        return Action::FocusLeft;
    }
    if kb.column_right.matches(code, mods) {
        return Action::FocusRight;
    }
    if kb.scroll_up.matches(code, mods) {
        return Action::Navigate(Direction::Up);
    }
    if kb.scroll_down.matches(code, mods) {
        return Action::Navigate(Direction::Down);
    }
    if kb.play_pause.matches(code, mods) {
        return Action::PlayPause;
    }
    if kb.next_track.matches(code, mods) {
        return Action::NextTrack;
    }
    if kb.prev_track.matches(code, mods) {
        return Action::PrevTrack;
    }
    if kb.add_all.matches(code, mods) {
        return Action::AddAllToQueue;
    }
    if kb.add_track.matches(code, mods) {
        return Action::AddToQueue;
    }
    if kb.shuffle.matches(code, mods) {
        return Action::Shuffle;
    }
    if kb.unshuffle.matches(code, mods) {
        return Action::Unshuffle;
    }
    if kb.clear_queue.matches(code, mods) {
        return Action::ClearQueue;
    }
    if kb.search.matches(code, mods) {
        return Action::SearchStart;
    }
    if kb.volume_up.matches(code, mods) {
        return Action::VolumeUp;
    }
    if kb.volume_down.matches(code, mods) {
        return Action::VolumeDown;
    }
    Action::NoOp
}

/// The action of a key press while the search prompt is open.
pub fn map_search_key(code: KeyCode) -> (a: Action)
    ensures
        a == (match code {
            KeyCode::Esc => Action::SearchCancel,
            KeyCode::Enter => Action::SearchConfirm,
            KeyCode::Backspace => Action::SearchBackspace,
            KeyCode::Char(c) => Action::SearchInput(c),
            _ => Action::NoOp,
        }),
{
    match code {
        KeyCode::Esc => Action::SearchCancel,
        KeyCode::Enter => Action::SearchConfirm,
        KeyCode::Backspace => Action::SearchBackspace,
        KeyCode::Char(c) => Action::SearchInput(c),
        _ => Action::NoOp,
    }
}

} // verus!
