//! The audio engine's protocol and the decisions it takes on every progress tick.
use vstd::prelude::*;

verus! {

/// Commands sent from the interface to the player thread.
pub enum PlayerCommand {
    /// Start playing the track at `url`; `duration_ms` is the expected total duration
    /// (from Subsonic metadata); `gen` identifies the request so stale ones can be dropped.
    PlayUrl { url: String, duration_ms: Option<u64>, gen: u64 },
    /// Append the next track for gapless playback (answer to `AboutToFinish`).
    EnqueueNext { url: String, duration_ms: Option<u64> },
    Pause,
    Resume,
    Stop,
    /// Seek to a position in milliseconds.
    Seek(u64),
    /// Volume in percent (0–100).
    SetVolume(u8),
}

/// Events sent from the player thread back to the interface.
pub enum PlayerEvent {
    TrackStarted,
    /// Periodic position report; `total_ms` is `None` when unknown.
    Progress { elapsed_ms: u64, total_ms: Option<u64> },
    /// The current track ends within ten seconds: time to enqueue the next one.
    AboutToFinish,
    /// A gaplessly enqueued track began playing.
    TrackAdvanced,
    TrackEnded,
    Error(String),
}

/// What the player thread remembers between ticks.
#[derive(Clone, Copy, PartialEq, Eq, Structural, Debug)]
pub struct EngineState {
    /// Duration of the playing track in milliseconds, when known.
    pub current_total_ms: Option<u64>,
    /// The last tick saw audio queued (to notice the natural end of a track).
    pub was_playing: bool,
    /// Duration of the gaplessly enqueued next track.
    pub next_total_ms: Option<u64>,
    /// A next track was appended for gapless playback.
    pub next_queued: bool,
    /// `AboutToFinish` was sent for the playing track.
    pub about_to_finish_sent: bool,
    /// Position seen at the previous tick, in milliseconds.
    pub prev_elapsed_ms: u64,
}

/// Nothing playing, nothing queued.
pub open spec fn idle() -> EngineState {
    EngineState {
        current_total_ms: None,
        was_playing: false,
        next_total_ms: None,
        next_queued: false,
        about_to_finish_sent: false,
        prev_elapsed_ms: 0,
    }
}

/// The gapless hand-over to the next track shows as the position falling from over two
/// seconds to under two while a next track was queued.
pub open spec fn advances(s: EngineState, elapsed_ms: u64) -> bool {
    s.next_queued && s.prev_elapsed_ms > 2000 && elapsed_ms < 2000
}

/// The state after the hand-over check of a playing tick.
pub open spec fn after_advance(s: EngineState, elapsed_ms: u64) -> EngineState {
    if advances(s, elapsed_ms) {
        EngineState {
            current_total_ms: s.next_total_ms,
            next_total_ms: None,
            next_queued: false,
            about_to_finish_sent: false,
            ..s
        }
    } else {
        s
    }
}

/// Whether a playing tick announces the end of the track: not yet announced, nothing
/// queued, known duration, and between zero and ten seconds left.
pub open spec fn announces(s: EngineState, elapsed_ms: u64) -> bool {
    !s.about_to_finish_sent && !s.next_queued && match s.current_total_ms {
        Some(t) => t > elapsed_ms && t - elapsed_ms <= 10_000,
        None => false,
    }
}

/// One tick of a player that is neither paused nor empty: hand-over check, progress
/// report, end-of-track announcement.
pub open spec fn playing_tick(s: EngineState, elapsed_ms: u64) -> (EngineState, Seq<PlayerEvent>) {
    let a = after_advance(s, elapsed_ms);
    let e0: Seq<PlayerEvent> = if advances(s, elapsed_ms) {
        seq![PlayerEvent::TrackAdvanced]
    } else {
        seq![]
    };
    let e1 = e0.push(PlayerEvent::Progress { elapsed_ms, total_ms: a.current_total_ms });
    let b = EngineState { prev_elapsed_ms: elapsed_ms, ..a };
    if announces(b, elapsed_ms) {
        (
            EngineState { about_to_finish_sent: true, was_playing: true, ..b },
            e1.push(PlayerEvent::AboutToFinish),
        )
    } else {
        (EngineState { was_playing: true, ..b }, e1)
    }
}

/// One tick of the player thread (every half second): given whether the player is paused
/// and empty and its position, the next state and the events to send, in order.
pub open spec fn tick_spec(s: EngineState, paused: bool, empty: bool, elapsed_ms: u64) -> (
    EngineState,
    Seq<PlayerEvent>,
) {
    let (s1, e) = if !paused && !empty {
        playing_tick(s, elapsed_ms)
    } else {
        (s, seq![])
    };
    if s1.was_playing && empty {
        (idle(), e.push(PlayerEvent::TrackEnded))
    } else {
        (s1, e)
    }
}

impl EngineState {
    /// The state of a fresh player thread.
    pub fn new() -> (s: Self)
        ensures
            s == idle(),
    {
        EngineState {
            current_total_ms: None,
            was_playing: false,
            next_total_ms: None,
            next_queued: false,
            about_to_finish_sent: false,
            prev_elapsed_ms: 0,
        }
    }

    /// A new track was requested (the player is stopped before it loads): forget the
    /// gapless and end-of-track state.
    pub fn on_play_requested(&mut self)
        ensures
            *final(self) == (EngineState {
                current_total_ms: old(self).current_total_ms,
                ..idle()
            }),
    {
        self.was_playing = false;
        self.next_total_ms = None;
        self.next_queued = false;
        self.about_to_finish_sent = false;
        self.prev_elapsed_ms = 0;
    }

    /// The requested track loaded (`Ok`) or failed with a message: it starts with its
    /// duration, or the failure is reported.
    pub fn on_play_loaded(&mut self, duration_ms: Option<u64>, result: Result<(), String>) -> (ev:
        PlayerEvent)
        ensures
            match result {
                Ok(()) => *final(self) == (EngineState {
                    current_total_ms: duration_ms,
                    ..*old(self)
                }) && ev == PlayerEvent::TrackStarted,
                Err(m) => *final(self) == *old(self) && (ev matches PlayerEvent::Error(t) && t@
                    == "playback error: "@ + m@),
            },
    {
        match result {
            Ok(()) => {
                self.current_total_ms = duration_ms;
                PlayerEvent::TrackStarted
            },
            Err(m) => {
                let mut t = String::new();
                crate::text::push_str(&mut t, "playback error: ");
                crate::text::push_str(&mut t, m.as_str());
                PlayerEvent::Error(t)
            },
        }
    }

    /// The next track for gapless playback loaded (`Ok`, and it was appended) or failed.
    pub fn on_enqueue_loaded(&mut self, duration_ms: Option<u64>, result: Result<(), String>) -> (ev:
        Option<PlayerEvent>)
        ensures
            match result {
                Ok(()) => *final(self) == (EngineState {
                    next_total_ms: duration_ms,
                    next_queued: true,
                    ..*old(self)
                }) && ev.is_none(),
                Err(m) => *final(self) == *old(self) && (ev matches Some(PlayerEvent::Error(t))
                    && t@ == "enqueue error: "@ + m@),
            },
    {
        match result {
            Ok(()) => {
                self.next_total_ms = duration_ms;
                self.next_queued = true;
                None
            },
            Err(m) => {
                let mut t = String::new();
                crate::text::push_str(&mut t, "enqueue error: ");
                crate::text::push_str(&mut t, m.as_str());
                Some(PlayerEvent::Error(t))
            },
        }
    }

    /// Playback was stopped: back to idle.
    pub fn on_stop(&mut self)
        ensures
            *final(self) == idle(),
    {
        *self = EngineState::new();
    }

    /// One tick of the player thread (see `tick_spec`).
    pub fn tick(&mut self, paused: bool, empty: bool, elapsed_ms: u64) -> (events: Vec<PlayerEvent>)
        ensures
            (*final(self), events@) == tick_spec(*old(self), paused, empty, elapsed_ms),
    {
        let mut events: Vec<PlayerEvent> = Vec::new();
        if !paused && !empty {
            if self.next_queued && self.prev_elapsed_ms > 2000 && elapsed_ms < 2000 {
                self.current_total_ms = self.next_total_ms;
                self.next_total_ms = None;
                self.next_queued = false;
                self.about_to_finish_sent = false;
                events.push(PlayerEvent::TrackAdvanced);
            }
            self.prev_elapsed_ms = elapsed_ms;
            events.push(PlayerEvent::Progress { elapsed_ms, total_ms: self.current_total_ms });
            if !self.about_to_finish_sent && !self.next_queued {
                if let Some(total) = self.current_total_ms {
                    let remaining = total.saturating_sub(elapsed_ms);
                    if remaining <= 10_000 && remaining > 0 {
                        self.about_to_finish_sent = true;
                        events.push(PlayerEvent::AboutToFinish);
                    }
                }
            }
            self.was_playing = true;
        }
        if self.was_playing && empty {
            *self = EngineState::new();
            events.push(PlayerEvent::TrackEnded);
        }
        events
    }
}

/// The end of a track is announced at most once: a tick that does not hand over to a
/// queued track sends no `AboutToFinish` once it was sent.
pub proof fn law_about_to_finish_once(s: EngineState, paused: bool, empty: bool, elapsed_ms: u64)
    requires
        s.about_to_finish_sent,
        !advances(s, elapsed_ms),
    ensures
        !tick_spec(s, paused, empty, elapsed_ms).1.contains(PlayerEvent::AboutToFinish),
        tick_spec(s, paused, empty, elapsed_ms).0.about_to_finish_sent || tick_spec(
            s,
            paused,
            empty,
            elapsed_ms,
        ).0 == idle(),
{
    let r = tick_spec(s, paused, empty, elapsed_ms);
    if r.1.contains(PlayerEvent::AboutToFinish) {
        let k = r.1.index_of(PlayerEvent::AboutToFinish);
        assert(r.1[k] == PlayerEvent::AboutToFinish);
    }
}

/// A track that ends naturally leaves the player idle, with `TrackEnded` as the last event.
pub proof fn law_track_end_resets(s: EngineState, elapsed_ms: u64)
    requires
        s.was_playing,
    ensures
        tick_spec(s, false, true, elapsed_ms).0 == idle(),
        tick_spec(s, false, true, elapsed_ms).1 == seq![PlayerEvent::TrackEnded],
{
}

} // verus!
