# NuhxBoard

NuhxBoard shows keyboard and mouse input on screen as a NohBoard layout: keys light up
while they are held, styles give them colors, fonts and images, and an edit mode lets the
user change the layout and its styles.

This crate is the verified core of it, written in Verus. The board is a state machine: each
message or input event goes to `NuhxBoard::update` or `NuhxBoard::input_event`, which change
the board and hand back effects (open a window, read a layout, write a style, deliver a
message later). Every public function states in its contract what it does to the board and
which effects it returns.

- `src/board*.rs`: the board and its handlers (input, styles, files, editing, the message
  dispatcher).
- `src/layout.rs`, `src/style.rs`, `src/settings.rs`: layouts, styles and settings.
- `src/keyboard.rs`, `src/canvas.rs`: what is pressed and shown, and the edit canvas.
- `src/windows.rs`, `src/history.rs`, `src/options.rs`: windows, undo history, listings.
- `src/laws.rs`: properties that span several calls, proved.
- `tests/`: tests on concrete values.
- `app/`: the program around the core: the input listener, files, timers.
