# banki

The logic of a level editor and level browser for a platform game, written in
Verus and verified: menus and their selection links, the editor's tools,
undo history, context menu, settings menu, clipboard format, input masks,
session handling and the level server's rules.

Layout:

- `src/` — the verified library. Each module states its behaviour in
  `requires`/`ensures` contracts over spec functions; functions named `law_…`
  are proof functions that state properties spanning several calls.
- `tests/` — tests of the library on concrete values.
- `app/` — the program around the library: reading arguments, clocks,
  random keys, logging, and the geometry that works on floating-point
  positions.

The clipboard code calls `base64` and `flate2` through a few trusted wrappers
in `src/clipboard.rs`; their contracts say what those crates document and
nothing more.
