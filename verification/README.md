# easycurses

A simplified view of curses: one window, driven through a single handle.

- `src/` is the verified library (Verus): colors and their curses numbers,
  color pairs and the table of pairs set up when curses starts, cursor
  visibility and input-mode codes, curses status codes, and the conversion
  from bottom-left ("cartesian") heights to rows.
- `app/` holds the `EasyCurses` handle, which makes the terminal calls through
  `pancurses`. It uses the library for the colour numbers, colour pairs,
  cursor-visibility codes, input timeouts, the bottom-left-to-row conversion
  and the status codes curses returns; rows, columns, scroll margins and text
  pass through unchanged. It also holds `preserve_panic_message`.
- `tests/` exercises the library on concrete values.
