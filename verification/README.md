# helide

A GPU-rendered window around the Helix editor, with an embedded terminal
pane. The crate is a verified library; `app/` is the program around it.

`src/` (verified with Verus):

- `layout` — the editor/divider/terminal split of the window and which
  region a pixel row belongs to.
- `event`, `input` — keyboard and mouse input as plain values, and its
  translation into the editor's key and mouse events.
- `terminal::input` — the byte sequences key presses send to the terminal.
- `palette`, `terminal::cells`, `renderer` — the 256-colour palette, colour
  resolution, and what each terminal or editor cell is drawn as.
- `atlas` — shelf packing of glyphs into the atlas texture and the coverage
  channel uploaded for them.
- `glyph_cache` — the cache of placed glyphs, keyed by face and character.
- `terminal` — the terminal pane's size, redraw and exit state.
- `backend` — the editor's cell grid.
- `app`, `config`, `events` — input routing, redraw decisions, dropped
  files, the choice among candidate paths, and requests to the event loop.
- `shell_env` — the `PATH` taken over from a login shell's output.
- `direnv` — what running `direnv export json` for a directory comes to,
  and the variables it exports.

`app/` holds the window, the GPU, the editor and the PTY: everything that is
I/O, floating point, or an implementation of an outside trait.
