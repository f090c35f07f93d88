# daemos

A desktop music player. The player's state and decisions live in a library
whose behaviour is specified with `requires`/`ensures` contracts and proved
with Verus; the window, the audio output, the SQLite storage and the
configuration file are ordinary Rust around it.

- `src/` — the verified library: time spans and clock texts, track and
  playlist values, the name-ordered track cache and its searches (fuzzy,
  exact, ASCII-lowercase), autoplay (iterative and shuffling), the playback
  position model (play, pause, resume, seek, end of track), processing
  counters, latency histories, file-name rules, regex extraction, content
  hashing, and the messages exchanged with the database thread.
- `tests/` — tests of the library on concrete values.
- `app/` — the eframe/egui window, the rodio player thread, the rusqlite
  database thread, file dialogs, metadata reading with symphonia, logging and
  the TOML configuration file.
