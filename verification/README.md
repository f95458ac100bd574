# minesweeper_tui

The decision logic of a terminal client for a multiplayer minesweeper server,
verified with Verus.

- `src/app.rs`: the interface state (`App`), and how key actions, application
  events, game events and join outcomes change it. Each transition is stated as
  a spec function over `AppState`; what the event loop must do next comes back
  as an `Effect`.
- `src/event.rs`, `src/game.rs`: the events, keys, parameters, positions and
  cells that the logic reads.
- `src/view.rs`: the text that the interface shows: board glyphs, key hints,
  the parameter and join popups, message texts.
- `src/layout.rs`: where a popup stands, through ratatui's layout.
- `src/text.rs`: decimal writing and parsing of `usize`, spaces, and the two
  `String` edits the logic needs.
- `src/laws.rs`: properties that span several events.
- `app/`: the terminal front end: the async event loop, the game client
  calls, and drawing with ratatui.
