# warp_tui

Verified decision logic of the terminal UI's slash-command menu and of its
voice-input session model.

- `src/gates.rs`: the four gates of `/voice`, the voice-gate check of a
  command (in a build without voice input every command fails it), and the
  selection of the commands that are active in the terminal UI.
- `src/lifecycle.rs`: the voice-input session lifecycle (one session at a time,
  generations, rejection of stale results), its abstract model, and the laws
  proved of it.
- `src/voice_input.rs`: the terminal UI's model over the lifecycle; every
  operation appends the events to announce to a queue that the caller emits.
- `src/query.rs`: how typed menu text becomes a search, and the order of the
  results.
- `src/data_source.rs`: the terminal UI's availability flags, the active
  commands and repository root (compared as paths), which model events make
  the active commands be recomputed, and when the UI must be told that they
  changed.
- `app/lib.rs`: the warpui entities around the voice model and the data
  source; the application supplies its registry, gates, routing and matchers.
