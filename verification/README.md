# goose_tui

The state machine behind a terminal chat client, with its behaviour stated in
contracts and proved with Verus.

- `src/` is the library. It takes key presses, reports of the agent and the
  outcome of outside calls as plain values, and gives back the next state and the
  effect to perform. `laws.rs`, `completion_laws.rs` and `layout_laws.rs` state
  what holds of it as a whole.
- `app/` draws the screen, reads the keyboard and performs the effects.
- `tests/` runs the library on concrete values.
