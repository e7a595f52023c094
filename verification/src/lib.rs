use vstd::prelude::*;

pub mod text;
pub mod clock;
pub mod models;
pub mod state;
pub mod action;
pub mod config;
pub mod player;
pub mod sort;
pub mod shuffle;
pub mod layout;
pub mod history;
pub mod cache;
pub mod keybinds;
pub mod theme;
pub mod lyrics;
pub mod subsonic;
pub mod ui_text;
pub mod kitty;
pub mod mpris;
pub mod persist;
pub mod stream;
pub mod app;

verus! {
} // verus!
