# playterm

A terminal music player for Subsonic servers (Navidrome and others): a three-column
library browser, a play queue with shuffle and gapless playback, synced lyrics, an
offline track cache, album art through the Kitty graphics protocol, and desktop media
controls.

The decisions of the player are a library verified with Verus; a thin binary owns the
terminal, the network, the audio device and the files.

## Layout

- `src/` — the verified library.
  - `app.rs`: the interface state machine. Actions, library updates, player events and
    mouse clicks change the state and return the outside work to do (`Effect`).
  - `state.rs`, `models.rs`, `action.rs`: the library data, the queue, playback state.
  - `player.rs`, `stream.rs`: the audio engine's state machine and the read position of
    a streamed download.
  - `subsonic.rs`: signed API requests, stream URLs, response checks, library listings.
  - `cache.rs`: the offline cache index with least-recently-played eviction.
  - `history.rs`: play history, recent albums, top and forgotten artists.
  - `kitty.rs`: escape sequences for covers and the art strip, and when to send them.
  - `lyrics.rs`, `keybinds.rs`, `theme.rs`, `config.rs`, `persist.rs`, `mpris.rs`,
    `layout.rs`, `ui_text.rs`, `sort.rs`, `shuffle.rs`, `text.rs`, `clock.rs`.
- `app/` — the binary: event loop, drawing, HTTP, audio, files, D-Bus.
- `tests/` — tests of the library.
