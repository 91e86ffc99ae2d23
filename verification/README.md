# jam2026

The logic of a small game jam: a local server that lists the games and serves
the framing game, the framing game that runs between microgames, a top-down
shooter, and "eat your greens", a clicking game about a computer, a floppy
disk and coloured heads.

- `src/` is the library, written in Verus: every function there carries a
  contract and is proved against it.
  - `server.rs`: the content type of a served file.
  - `framing/`: screens, lives and timings of the framing game.
  - `shooter/`: the shooter's random numbers, palette, blitting, sprites,
    animations, input bits, round state machine, scaling to the window and
    the sound chip's register writes.
  - `greens/`: colours, phases, scoring, the computer and its operating
    system, the page's operations and the game's events.
  - `text.rs`: decimal digits and string comparison.
- `tests/` runs the library on concrete values.
- `app/` is the program around it: the HTTP server, and the parts of the
  games that work in floating point or talk to a window, a sound device or
  a browser.
