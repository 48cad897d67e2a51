# startup_layout

A launcher of desktop applications at saved window positions. A preset names
an executable, its arguments, a delay and a window rectangle, optionally
relative to one of the monitors; launching a preset starts the program, finds
its window (by process id, else by executable path) and moves it into place.

- `src/` is the library, verified with Verus: the presets and their editing
  (`model`, `editor`), monitor ordering and placement (`monitor`), window
  search and picking decisions (`window`, `picker`), executable names taken
  from paths (`path`), the launch sequence as a
  state machine (`launch`), and decimal text and number parsing (`text`).
- `app/` is the Windows desktop program around it: the Dioxus user
  interface, the Win32 calls, and JSON storage of the presets.
- `tests/` runs the library on concrete values.
