//! Configuration: the sections of `config.toml`, environment overrides, and the
//! resolved runtime configuration.
use vstd::prelude::*;

use crate::text::{push_str, path_join, path_join_spec};

verus! {

/// `[server]` section.
pub struct ServerSection {
    pub url: String,
    pub username: String,
    pub password: String,
}

/// `[player]` section.
pub struct PlayerSection {
    pub default_volume: u8,
    pub max_bit_rate: u32,
}

/// Default volume when the config file does not name one.
pub fn default_volume() -> (v: u8)
    ensures
        v == 70,
{
    70
}

impl PlayerSection {
    /// Defaults: volume 70, no bit-rate cap.
    pub fn default_section() -> (p: Self)
        ensures
            p.default_volume == 70,
            p.max_bit_rate == 0,
    {
        PlayerSection { default_volume: default_volume(), max_bit_rate: 0 }
    }
}

/// `[cache]` section; the size limit is already converted to bytes.
pub struct CacheSection {
    pub enabled: bool,
    pub max_size_bytes: u64,
}

/// `[theme]` section: hex colours (`"#rrggbb"`) and whether the accent follows album art.
pub struct ThemeSection {
    pub dynamic: bool,
    pub accent: Option<String>,
    pub background: Option<String>,
    pub surface: Option<String>,
    pub foreground: Option<String>,
    pub dimmed: Option<String>,
    pub border: Option<String>,
    pub border_active: Option<String>,
}

/// `[keybinds]` section: one optional key string per remappable binding.
pub struct KeybindsSection {
    pub scroll_up: Option<String>,
    pub scroll_down: Option<String>,
    pub column_left: Option<String>,
    pub column_right: Option<String>,
    pub play_pause: Option<String>,
    pub next_track: Option<String>,
    pub prev_track: Option<String>,
    pub seek_forward: Option<String>,
    pub seek_backward: Option<String>,
    pub add_track: Option<String>,
    pub add_all: Option<String>,
    pub shuffle: Option<String>,
    pub unshuffle: Option<String>,
    pub clear_queue: Option<String>,
    pub search: Option<String>,
    pub volume_up: Option<String>,
    pub volume_down: Option<String>,
    pub tab_switch: Option<String>,
    pub tab_switch_reverse: Option<String>,
    pub go_to_home: Option<String>,
    pub go_to_browser: Option<String>,
    pub go_to_nowplaying: Option<String>,
    pub quit: Option<String>,
}

/// The whole configuration file.
pub struct FileConfig {
    pub server: ServerSection,
    pub player: PlayerSection,
    pub cache: CacheSection,
    /// `[ui] lyrics`: show the lyrics overlay on startup.
    pub lyrics_visible: bool,
    pub theme: ThemeSection,
    pub keybinds: KeybindsSection,
}

/// Runtime configuration.
pub struct Config {
    pub subsonic_url: String,
    pub subsonic_user: String,
    pub subsonic_pass: String,
    pub default_volume: u8,
    pub max_bit_rate: u32,
    pub cache_enabled: bool,
    pub cache_max_size_bytes: u64,
    pub lyrics_visible: bool,
    pub theme: ThemeSection,
    pub keybinds: KeybindsSection,
}

/// The value of the first environment variable that is set, else of the second.
pub fn pick_env(primary: Option<String>, secondary: Option<String>) -> (r: Option<String>)
    ensures
        r == (if primary.is_some() {
            primary
        } else {
            secondary
        }),
{
    match primary {
        Some(v) => Some(v),
        None => secondary,
    }
}

/// Applies environment overrides: each value that is present replaces the file's value.
pub fn merge_env_overrides(
    cfg: &mut FileConfig,
    url: Option<String>,
    user: Option<String>,
    pass: Option<String>,
)
    ensures
        final(cfg).server.url == (if url.is_some() {
            url.unwrap()
        } else {
            old(cfg).server.url
        }),
        final(cfg).server.username == (if user.is_some() {
            user.unwrap()
        } else {
            old(cfg).server.username
        }),
        final(cfg).server.password == (if pass.is_some() {
            pass.unwrap()
        } else {
            old(cfg).server.password
        }),
        final(cfg).player == old(cfg).player,
        final(cfg).cache == old(cfg).cache,
        final(cfg).lyrics_visible == old(cfg).lyrics_visible,
        final(cfg).theme == old(cfg).theme,
        final(cfg).keybinds == old(cfg).keybinds,
{
    if let Some(v) = url {
        cfg.server.url = v;
    }
    if let Some(v) = user {
        cfg.server.username = v;
    }
    if let Some(v) = pass {
        cfg.server.password = v;
    }
}

/// The message shown when no password is configured.
pub open spec fn missing_password_message(path: Seq<char>) -> Seq<char> {
    "No Subsonic password configured.\nEdit "@ + path + " or set TERMUSIC_SUBSONIC_PASS."@
}

impl Config {
    /// Resolves the file configuration; fails exactly when the password is empty.
    pub fn from_file(file: FileConfig, config_path: &str) -> (r: Result<Config, String>)
        ensures
            file.server.password@.len() == 0 <==> r.is_err(),
            r.is_err() ==> r->Err_0@ == missing_password_message(config_path@),
            r.is_ok() ==> ({
                let c = r->Ok_0;
                &&& c.subsonic_url == file.server.url
                &&& c.subsonic_user == file.server.username
                &&& c.subsonic_pass == file.server.password
                &&& c.default_volume == file.player.default_volume
                &&& c.max_bit_rate == file.player.max_bit_rate
                &&& c.cache_enabled == file.cache.enabled
                &&& c.cache_max_size_bytes == file.cache.max_size_bytes
                &&& c.lyrics_visible == file.lyrics_visible
                &&& c.theme == file.theme
                &&& c.keybinds == file.keybinds
            }),
    {
        if file.server.password.as_str().is_empty() {
            let mut msg = String::from_str("No Subsonic password configured.\nEdit ");
            push_str(&mut msg, config_path);
            push_str(&mut msg, " or set TERMUSIC_SUBSONIC_PASS.");
            return Err(msg);
        }
        Ok(Config {
            subsonic_url: file.server.url,
            subsonic_user: file.server.username,
            subsonic_pass: file.server.password,
            default_volume: file.player.default_volume,
            max_bit_rate: file.player.max_bit_rate,
            cache_enabled: file.cache.enabled,
            cache_max_size_bytes: file.cache.max_size_bytes,
            lyrics_visible: file.lyrics_visible,
            theme: file.theme,
            keybinds: file.keybinds,
        })
    }
}

/// The per-user configuration directory: `$XDG_CONFIG_HOME/playterm`, else
/// `$HOME/.config/playterm`; `None` when neither variable is set.
pub open spec fn config_dir_spec(xdg: Option<String>, home: Option<String>) -> Option<Seq<char>> {
    match xdg {
        Some(x) => Some(path_join_spec(x@, "playterm"@)),
        None => match home {
            Some(h) => Some(path_join_spec(path_join_spec(h@, ".config"@), "playterm"@)),
            None => None,
        },
    }
}

/// The configuration directory from the values of `XDG_CONFIG_HOME` and `HOME`.
pub fn config_dir(xdg: Option<String>, home: Option<String>) -> (r: Result<String, String>)
    ensures
        r.is_ok() == config_dir_spec(xdg, home).is_some(),
        r.is_ok() ==> r->Ok_0@ == config_dir_spec(xdg, home).unwrap(),
        r.is_err() ==> r->Err_0@ == "HOME env var not set"@,
{
    if let Some(x) = xdg {
        return Ok(path_join(x.as_str(), "playterm"));
    }
    match home {
        Some(h) => {
            let c = path_join(h.as_str(), ".config");
            Ok(path_join(c.as_str(), "playterm"))
        },
        None => Err(String::from_str("HOME env var not set")),
    }
}

/// `config_dir()/config.toml`.
pub fn config_file_path(xdg: Option<String>, home: Option<String>) -> (r: Result<String, String>)
    ensures
        r.is_ok() == config_dir_spec(xdg, home).is_some(),
        r.is_ok() ==> r->Ok_0@ == path_join_spec(config_dir_spec(xdg, home).unwrap(), "config.toml"@),
{
    match config_dir(xdg, home) {
        Ok(d) => Ok(path_join(d.as_str(), "config.toml")),
        Err(e) => Err(e),
    }
}

/// `config_dir()/state.json`, where the browser state and queue are saved.
pub fn state_path(xdg: Option<String>, home: Option<String>) -> (r: Result<String, String>)
    ensures
        r.is_ok() == config_dir_spec(xdg, home).is_some(),
        r.is_ok() ==> r->Ok_0@ == path_join_spec(config_dir_spec(xdg, home).unwrap(), "state.json"@),
{
    match config_dir(xdg, home) {
        Ok(d) => Ok(path_join(d.as_str(), "state.json")),
        Err(e) => Err(e),
    }
}

/// The text written to a fresh configuration file.
pub fn default_config_text() -> (s: String)
    ensures
        s@ == "[server]\nurl = \"\"\nusername = \"\"\npassword = \"\"\n\n[player]\ndefault_volume = 70\nmax_bit_rate = 0\n"@,
{
    String::from_str(
        "[server]\nurl = \"\"\nusername = \"\"\npassword = \"\"\n\n[player]\ndefault_volume = 70\nmax_bit_rate = 0\n",
    )
}

} // verus!
