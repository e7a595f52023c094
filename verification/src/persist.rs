//! The part of the interface state kept between sessions: tab, focus, selections and the
//! queue.
use vstd::prelude::*;
use crate::app::{App, BrowserColumn, Tab};
use crate::models::{clone_songs, Song};
use crate::state::{LibraryState, QueueState};

verus! {

/// What is saved on quit and restored on start.
pub struct SavedState {
    pub active_tab: Tab,
    pub browser_focus: BrowserColumn,
    pub selected_artist: Option<usize>,
    pub selected_album: Option<usize>,
    pub selected_track: Option<usize>,
    pub queue: Vec<Song>,
    pub queue_cursor: usize,
}

/// The cursor of a restored queue of `n` songs: the saved one, at most the last index.
pub open spec fn restored_cursor(saved: usize, n: nat) -> usize {
    let last: int = if n >= 1 {
        n - 1
    } else {
        0
    };
    if saved <= last {
        saved
    } else {
        last as usize
    }
}

/// `s` records the state of `a`.
pub open spec fn saved_from(a: App, s: SavedState) -> bool {
    &&& s.active_tab == a.active_tab
    &&& s.browser_focus == a.browser_focus
    &&& s.selected_artist == a.library.selected_artist
    &&& s.selected_album == a.library.selected_album
    &&& s.selected_track == a.library.selected_track
    &&& s.queue@ == a.queue.songs@
    &&& s.queue_cursor == a.queue.cursor
}

/// The interface `o` after restoring `s`: its tab, focus, selections and queue, the cursor
/// kept within the queue and the queue scrolled to it; the rest of `o` unchanged.
pub open spec fn restored(o: App, s: SavedState) -> App {
    App {
        active_tab: s.active_tab,
        browser_focus: s.browser_focus,
        library: LibraryState {
            selected_artist: s.selected_artist,
            selected_album: s.selected_album,
            selected_track: s.selected_track,
            ..o.library
        },
        queue: QueueState {
            songs: s.queue,
            cursor: restored_cursor(s.queue_cursor, s.queue@.len()),
            scroll: restored_cursor(s.queue_cursor, s.queue@.len()),
            ..o.queue
        },
        ..o
    }
}

/// What is saved from one session comes back in the next: restoring the saved state of
/// `a` into any interface `b` gives back `a`'s tab, focus, selections and queue, and its
/// cursor when that points into the queue (or is 0 on an empty one).
pub proof fn law_save_restore_round_trip(a: App, s: SavedState, b: App)
    requires
        saved_from(a, s),
        a.queue.cursor < a.queue.songs@.len() || (a.queue.songs@.len() == 0 && a.queue.cursor
            == 0),
    ensures
        restored(b, s).active_tab == a.active_tab,
        restored(b, s).browser_focus == a.browser_focus,
        restored(b, s).library.selected_artist == a.library.selected_artist,
        restored(b, s).library.selected_album == a.library.selected_album,
        restored(b, s).library.selected_track == a.library.selected_track,
        restored(b, s).queue.songs@ == a.queue.songs@,
        restored(b, s).queue.cursor == a.queue.cursor,
{
}

impl App {
    /// The state to save.
    pub fn saved_state(&self) -> (s: SavedState)
        ensures
            saved_from(*self, s),
    {
        SavedState {
            active_tab: self.active_tab,
            browser_focus: self.browser_focus,
            selected_artist: self.library.selected_artist,
            selected_album: self.library.selected_album,
            selected_track: self.library.selected_track,
            queue: clone_songs(&self.queue.songs),
            queue_cursor: self.queue.cursor,
        }
    }

    /// Restores a saved state; nothing starts playing. The cursor is kept within the queue
    /// and the queue scrolled to it.
    pub fn restore_state(&mut self, state: SavedState)
        requires
            old(self).wf(),
        ensures
            final(self).wf(),
            *final(self) == restored(*old(self), state),
    {
        let n = state.queue.len();
        let last = n.saturating_sub(1);
        let cursor = if state.queue_cursor <= last {
            state.queue_cursor
        } else {
            last
        };
        self.active_tab = state.active_tab;
        self.browser_focus = state.browser_focus;
        self.library.selected_artist = state.selected_artist;
        self.library.selected_album = state.selected_album;
        self.library.selected_track = state.selected_track;
        self.queue.songs = state.queue;
        self.queue.cursor = cursor;
        self.queue.scroll = cursor;
    }
}

} // verus!
